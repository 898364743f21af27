//! The TLS secrets of a cluster: how a PKI bundle is written into Kubernetes
//! secrets, and how it is read back.

use vstd::prelude::*;
use vstd::string::*;
use vstd::utf8::{
    decode_utf8, decode_utf8_encode_utf8, encode_utf8, encode_utf8_decode_utf8,
    encode_utf8_valid_utf8, valid_utf8,
};
use crate::encoding::{
    base64_decode, base64_decoding, base64_encode, base64_len, base64_symbol, base64_text,
    json_object, json_object_text, law_four_symbols_for_three_bytes, member_views, pair_views, utf8_decode, utf8_error_text,
    JsonMember, JsonMemberView,
};
use crate::shell::{
    apply_command, apply_script, law_scripts_name_what_they_are_given, shell_args,
};
use crate::text::{
    contains, contains_text, law_contained_is_between, law_needle_between_is_contained,
    signed_decimal, signed_decimal_text, trim, trimmed, views, white_space,
};

verus! {

/// Certificates and keys of a cluster, in PEM form.
#[derive(Debug, Clone)]
pub struct PkiBundle {
    pub ca_cert_pem: String,
    /// Empty where the bundle was read back from a cluster.
    pub ca_key_pem: String,
    pub server_cert_pem: String,
    pub server_key_pem: String,
    pub client_cert_pem: String,
    pub client_key_pem: String,
}

/// What a `PkiBundle` holds.
pub struct PkiBundleView {
    pub ca_cert_pem: Seq<char>,
    pub ca_key_pem: Seq<char>,
    pub server_cert_pem: Seq<char>,
    pub server_key_pem: Seq<char>,
    pub client_cert_pem: Seq<char>,
    pub client_key_pem: Seq<char>,
}

impl View for PkiBundle {
    type V = PkiBundleView;

    open spec fn view(&self) -> PkiBundleView {
        PkiBundleView {
            ca_cert_pem: self.ca_cert_pem@,
            ca_key_pem: self.ca_key_pem@,
            server_cert_pem: self.server_cert_pem@,
            server_key_pem: self.server_key_pem@,
            client_cert_pem: self.client_cert_pem@,
            client_key_pem: self.client_key_pem@,
        }
    }
}

/// The marker that opens a PEM section stands in `data`.
pub open spec fn is_pem(data: Seq<char>) -> bool {
    contains_text(data, "-----BEGIN "@)
}

/// A secret value in base64 fits in memory.
pub open spec fn encodable(value: Seq<char>) -> bool {
    base64_len(encode_utf8(value).len()) <= isize::MAX
}

impl PkiBundleView {
    /// Every part that a cluster stores is PEM.
    pub open spec fn stored_parts_are_pem(self) -> bool {
        &&& is_pem(self.ca_cert_pem)
        &&& is_pem(self.server_cert_pem)
        &&& is_pem(self.server_key_pem)
        &&& is_pem(self.client_cert_pem)
        &&& is_pem(self.client_key_pem)
    }

    /// Every part that a cluster stores fits in memory once it is in base64.
    pub open spec fn stored_parts_are_encodable(self) -> bool {
        &&& encodable(self.ca_cert_pem)
        &&& encodable(self.server_cert_pem)
        &&& encodable(self.server_key_pem)
        &&& encodable(self.client_cert_pem)
        &&& encodable(self.client_key_pem)
    }

    /// The bundle without the CA key, which no cluster stores.
    pub open spec fn without_ca_key(self) -> PkiBundleView {
        PkiBundleView { ca_key_pem: Seq::empty(), ..self }
    }
}

/// Whether a secret value in base64 fits in memory.
pub fn can_encode(value: &str) -> (fits: bool)
    ensures
        fits == encodable(value@),
{
    let size: usize = value.as_bytes().len();
    4 * ((size as u128 + 2) / 3) <= isize::MAX as u128
}

impl PkiBundle {
    /// Whether every part that a cluster stores fits in memory once it is in base64.
    pub fn can_be_stored(&self) -> (fits: bool)
        ensures
            fits == self@.stored_parts_are_encodable(),
    {
        can_encode(self.ca_cert_pem.as_str()) && can_encode(self.server_cert_pem.as_str())
            && can_encode(self.server_key_pem.as_str()) && can_encode(
            self.client_cert_pem.as_str(),
        ) && can_encode(self.client_key_pem.as_str())
    }
}

/// Name of the secret with the server certificate and key.
pub fn server_tls_secret_name() -> (name: &'static str)
    ensures
        name@ == "navigator-server-tls"@,
{
    "navigator-server-tls"
}

/// Name of the secret with the CA certificate that client certificates are
/// verified against.
pub fn server_client_ca_secret_name() -> (name: &'static str)
    ensures
        name@ == "navigator-server-client-ca"@,
{
    "navigator-server-client-ca"
}

/// Name of the secret with the client certificate and key and the CA certificate.
pub fn client_tls_secret_name() -> (name: &'static str)
    ensures
        name@ == "navigator-client-tls"@,
{
    "navigator-client-tls"
}

/// A Kubernetes secret: its name, its type, and its values in base64.
#[derive(Debug)]
pub struct TlsSecret {
    pub name: String,
    pub kind: String,
    pub data: Vec<(String, String)>,
}

/// What a `TlsSecret` holds.
pub struct TlsSecretView {
    pub name: Seq<char>,
    pub kind: Seq<char>,
    pub data: Seq<(Seq<char>, Seq<char>)>,
}

impl View for TlsSecret {
    type V = TlsSecretView;

    open spec fn view(&self) -> TlsSecretView {
        TlsSecretView { name: self.name@, kind: self.kind@, data: pair_views(self.data@) }
    }
}

impl TlsSecretView {
    /// The members of the secret's manifest.
    pub open spec fn manifest_members(self) -> Seq<(Seq<char>, JsonMemberView)> {
        seq![
            ("apiVersion"@, JsonMemberView::Text("v1"@)),
            ("kind"@, JsonMemberView::Text("Secret"@)),
            (
                "metadata"@,
                JsonMemberView::Group(
                    seq![("name"@, self.name), ("namespace"@, "navigator"@)],
                ),
            ),
            ("type"@, JsonMemberView::Text(self.kind)),
            ("data"@, JsonMemberView::Group(self.data)),
        ]
    }
}

impl TlsSecret {
    /// The manifest that creates the secret, as JSON on one line.
    pub fn manifest(self) -> (text: String)
        ensures
            text@ == json_object_text(self@.manifest_members()),
            text@.len() > 0,
            text@.first() == '{',
            !text@.contains('\n'),
    {
        let metadata: Vec<(String, String)> = vec![
            ("name".to_owned(), self.name),
            ("namespace".to_owned(), "navigator".to_owned()),
        ];
        let members: Vec<(String, JsonMember)> = vec![
            ("apiVersion".to_owned(), JsonMember::Text("v1".to_owned())),
            ("kind".to_owned(), JsonMember::Text("Secret".to_owned())),
            ("metadata".to_owned(), JsonMember::Group(metadata)),
            ("type".to_owned(), JsonMember::Text(self.kind)),
            ("data".to_owned(), JsonMember::Group(self.data)),
        ];
        proof {
            assert(pair_views(metadata@) =~= seq![
                ("name"@, self.name@),
                ("namespace"@, "navigator"@),
            ]);
            assert(member_views(members@) =~= self@.manifest_members());
        }
        json_object(members)
    }
}

/// What a text or the description of its failure holds.
pub open spec fn result_view(result: Result<String, String>) -> Result<Seq<char>, Seq<char>> {
    match result {
        Ok(text) => Ok(text@),
        Err(reason) => Err(reason@),
    }
}

/// What reading `key` of `secret` gives, once its base64 text was decoded.
pub open spec fn decoded_reading(
    secret: Seq<char>,
    key: Seq<char>,
    decoding: Result<Seq<u8>, Seq<char>>,
) -> Result<Seq<char>, Seq<char>> {
    match decoding {
        Ok(bytes) => if valid_utf8(bytes) {
            Ok(decode_utf8(bytes))
        } else {
            Err("non-UTF8 data in "@ + secret + "/"@ + key + ": "@ + utf8_error_text(bytes))
        },
        Err(reason) => Err("base64 decode failed for "@ + secret + "/"@ + key + ": "@ + reason),
    }
}

/// What reading `key` of `secret` gives, where the command that reads it ended
/// with `exit_code` and printed `output`.
pub open spec fn secret_reading(
    secret: Seq<char>,
    key: Seq<char>,
    exit_code: int,
    output: Seq<char>,
) -> Result<Seq<char>, Seq<char>> {
    if exit_code != 0 || trimmed(output).len() == 0 {
        Err("secret "@ + secret + " key "@ + key + " not found or empty"@)
    } else {
        decoded_reading(secret, key, base64_decoding(trimmed(output)))
    }
}

/// `prefix`, then `secret`, a slash and `key`, then a colon and `reason`.
fn key_failure(prefix: &str, secret: &str, key: &str, reason: &str) -> (text: String)
    ensures
        text@ == prefix@ + secret@ + "/"@ + key@ + ": "@ + reason@,
{
    let mut text = prefix.to_owned();
    text.append(secret);
    text.append("/");
    text.append(key);
    text.append(": ");
    text.append(reason);
    text
}

/// The value of `key` of `secret`, once its base64 text was decoded: the decoded
/// bytes as text, or why there is none.
pub fn decoded_secret_value(
    secret: &str,
    key: &str,
    decoded: Result<Vec<u8>, String>,
) -> (value: Result<String, String>)
    ensures
        result_view(value) == decoded_reading(
            secret@,
            key@,
            match decoded {
                Ok(bytes) => Ok(bytes@),
                Err(reason) => Err(reason@),
            },
        ),
{
    match decoded {
        Ok(bytes) => match utf8_decode(bytes) {
            Ok(text) => Ok(text),
            Err(reason) => Err(key_failure("non-UTF8 data in ", secret, key, reason.as_str())),
        },
        Err(reason) => Err(key_failure("base64 decode failed for ", secret, key, reason.as_str())),
    }
}

/// How a command on a secret ended.
#[derive(Debug)]
pub enum SecretReply {
    /// It ran.
    Ran { output: String, exit_code: i64 },
    /// It could not be run, for the given reason.
    Failed(String),
}

/// What a `SecretReply` tells.
pub enum SecretReplyView {
    Ran { output: Seq<char>, exit_code: int },
    Failed(Seq<char>),
}

impl View for SecretReply {
    type V = SecretReplyView;

    open spec fn view(&self) -> SecretReplyView {
        match self {
            SecretReply::Ran { output, exit_code } => SecretReplyView::Ran {
                output: output@,
                exit_code: *exit_code as int,
            },
            SecretReply::Failed(reason) => SecretReplyView::Failed(reason@),
        }
    }
}

/// What reading `key` of `secret` gives, where the command that reads it ended as
/// `reply` tells.
pub open spec fn reply_reading(
    secret: Seq<char>,
    key: Seq<char>,
    reply: SecretReplyView,
) -> Result<Seq<char>, Seq<char>> {
    match reply {
        SecretReplyView::Ran { output, exit_code } => secret_reading(
            secret,
            key,
            exit_code,
            output,
        ),
        SecretReplyView::Failed(reason) => Err("exec failed: "@ + reason),
    }
}

/// Read `key` of the Kubernetes secret `secret` out of the reply of the command
/// that prints it: the value, or why there is none.
pub fn read_secret_key(secret: &str, key: &str, reply: &SecretReply) -> (value: Result<
    String,
    String,
>)
    ensures
        result_view(value) == reply_reading(secret@, key@, reply@),
{
    match reply {
        SecretReply::Ran { output, exit_code } => {
            let printed = trim(output.as_str());
            if *exit_code != 0 || printed.is_empty() {
                let mut reason = "secret ".to_owned();
                reason.append(secret);
                reason.append(" key ");
                reason.append(key);
                reason.append(" not found or empty");
                return Err(reason);
            }
            let decoded = base64_decode(printed);
            decoded_secret_value(secret, key, decoded)
        },
        SecretReply::Failed(reason) => {
            let mut text = "exec failed: ".to_owned();
            text.append(reason.as_str());
            Err(text)
        },
    }
}

/// Text without white space is its own trimmed form.
proof fn lemma_trimmed_symbols(text: Seq<char>)
    requires
        forall|i: int| 0 <= i < text.len() ==> base64_symbol(#[trigger] text[i]),
    ensures
        trimmed(text) == text,
{
    if text.len() > 0 {
        assert(base64_symbol(text[0]));
        assert(base64_symbol(text[text.len() - 1]));
        assert(!white_space(text.first()));
        assert(!white_space(text.last()));
    }
}

/// The bytes of some text are there where the text is.
proof fn lemma_encoded_nonempty(text: Seq<char>)
    requires
        text.len() > 0,
    ensures
        encode_utf8(text).len() > 0,
{
    vstd::utf8::encode_utf8_first_scalar(text);
}

/// `value` as a Kubernetes secret holds it. Where it is not empty, reading it back
/// gives it again, under every secret and key.
pub fn encode_secret_value(value: &str) -> (text: String)
    requires
        encodable(value@),
    ensures
        text@ == base64_text(encode_utf8(value@)),
        value@.len() > 0 ==> forall|secret: Seq<char>, key: Seq<char>|
            #[trigger] secret_reading(secret, key, 0, text@) == Ok::<Seq<char>, Seq<char>>(value@),
{
    let text = base64_encode(value.as_bytes());
    proof {
        encode_utf8_valid_utf8(value@);
        encode_utf8_decode_utf8(value@);
        if value@.len() > 0 {
            lemma_encoded_nonempty(value@);
            lemma_trimmed_symbols(text@);
        }
    }
    text
}

/// `value` as a Kubernetes secret holds it.
pub open spec fn secret_value(value: Seq<char>) -> Seq<char> {
    base64_text(encode_utf8(value))
}

/// The secrets that hold `bundle`: the server certificate and key, the CA that
/// client certificates are verified against, and what clients need.
pub open spec fn tls_secret_views(bundle: PkiBundleView) -> Seq<TlsSecretView> {
    seq![
        TlsSecretView {
            name: "navigator-server-tls"@,
            kind: "kubernetes.io/tls"@,
            data: seq![
                ("tls.crt"@, secret_value(bundle.server_cert_pem)),
                ("tls.key"@, secret_value(bundle.server_key_pem)),
            ],
        },
        TlsSecretView {
            name: "navigator-server-client-ca"@,
            kind: "Opaque"@,
            data: seq![("ca.crt"@, secret_value(bundle.ca_cert_pem))],
        },
        TlsSecretView {
            name: "navigator-client-tls"@,
            kind: "Opaque"@,
            data: seq![
                ("tls.crt"@, secret_value(bundle.client_cert_pem)),
                ("tls.key"@, secret_value(bundle.client_key_pem)),
                ("ca.crt"@, secret_value(bundle.ca_cert_pem)),
            ],
        },
    ]
}

/// What `secrets` hold.
pub open spec fn secret_views(secrets: Seq<TlsSecret>) -> Seq<TlsSecretView> {
    secrets.map_values(|secret: TlsSecret| secret@)
}

/// What a secret's `data` holds under `key`.
pub open spec fn data_under(data: Seq<(Seq<char>, Seq<char>)>, key: Seq<char>) -> Option<Seq<char>>
    decreases data.len(),
{
    if data.len() == 0 {
        None
    } else if data.first().0 == key {
        Some(data.first().1)
    } else {
        data_under(data.drop_first(), key)
    }
}

/// What the secret of the given name holds under `key`.
pub open spec fn stored_under(
    secrets: Seq<TlsSecretView>,
    name: Seq<char>,
    key: Seq<char>,
) -> Option<Seq<char>>
    decreases secrets.len(),
{
    if secrets.len() == 0 {
        None
    } else if secrets.first().name == name {
        data_under(secrets.first().data, key)
    } else {
        stored_under(secrets.drop_first(), name, key)
    }
}

/// What the six keys of a cluster's TLS secrets read as.
#[derive(Debug)]
pub struct SecretValues {
    pub server_cert: String,
    pub server_key: String,
    pub ca_cert: String,
    pub client_cert: String,
    pub client_key: String,
    pub client_ca: String,
}

/// What `SecretValues` hold.
pub struct SecretValuesView {
    pub server_cert: Seq<char>,
    pub server_key: Seq<char>,
    pub ca_cert: Seq<char>,
    pub client_cert: Seq<char>,
    pub client_key: Seq<char>,
    pub client_ca: Seq<char>,
}

impl View for SecretValues {
    type V = SecretValuesView;

    open spec fn view(&self) -> SecretValuesView {
        SecretValuesView {
            server_cert: self.server_cert@,
            server_key: self.server_key@,
            ca_cert: self.ca_cert@,
            client_cert: self.client_cert@,
            client_key: self.client_key@,
            client_ca: self.client_ca@,
        }
    }
}

impl PkiBundleView {
    /// The parts of the bundle that a cluster stores.
    pub open spec fn stored_values(self) -> SecretValuesView {
        SecretValuesView {
            server_cert: self.server_cert_pem,
            server_key: self.server_key_pem,
            ca_cert: self.ca_cert_pem,
            client_cert: self.client_cert_pem,
            client_key: self.client_key_pem,
            client_ca: self.ca_cert_pem,
        }
    }
}

/// The bundle that `values` make up, or which of them is not PEM.
pub open spec fn assembled(values: SecretValuesView) -> Result<PkiBundleView, Seq<char>> {
    let complaint = " does not contain valid PEM data"@;
    if !is_pem(values.server_cert) {
        Err("server cert"@ + complaint)
    } else if !is_pem(values.server_key) {
        Err("server key"@ + complaint)
    } else if !is_pem(values.ca_cert) {
        Err("CA cert"@ + complaint)
    } else if !is_pem(values.client_cert) {
        Err("client cert"@ + complaint)
    } else if !is_pem(values.client_key) {
        Err("client key"@ + complaint)
    } else if !is_pem(values.client_ca) {
        Err("client CA"@ + complaint)
    } else {
        Ok(
            PkiBundleView {
                ca_cert_pem: values.ca_cert,
                ca_key_pem: Seq::empty(),
                server_cert_pem: values.server_cert,
                server_key_pem: values.server_key,
                client_cert_pem: values.client_cert,
                client_key_pem: values.client_key,
            },
        )
    }
}

/// `label` and that it is not PEM.
fn not_pem(label: &str) -> (text: String)
    ensures
        text@ == label@ + " does not contain valid PEM data"@,
{
    let mut text = label.to_owned();
    text.append(" does not contain valid PEM data");
    text
}

/// The bundle that the values of a cluster's TLS secrets make up. Fails with the
/// first value that does not contain a PEM marker.
pub fn assemble_bundle(values: SecretValues) -> (bundle: Result<PkiBundle, String>)
    ensures
        bundle_view(bundle) == assembled(values@),
{
    if !contains(values.server_cert.as_str(), "-----BEGIN ") {
        return Err(not_pem("server cert"));
    }
    if !contains(values.server_key.as_str(), "-----BEGIN ") {
        return Err(not_pem("server key"));
    }
    if !contains(values.ca_cert.as_str(), "-----BEGIN ") {
        return Err(not_pem("CA cert"));
    }
    if !contains(values.client_cert.as_str(), "-----BEGIN ") {
        return Err(not_pem("client cert"));
    }
    if !contains(values.client_key.as_str(), "-----BEGIN ") {
        return Err(not_pem("client key"));
    }
    if !contains(values.client_ca.as_str(), "-----BEGIN ") {
        return Err(not_pem("client CA"));
    }
    Ok(
        PkiBundle {
            ca_cert_pem: values.ca_cert,
            ca_key_pem: String::new(),
            server_cert_pem: values.server_cert,
            server_key_pem: values.server_key,
            client_cert_pem: values.client_cert,
            client_key_pem: values.client_key,
        },
    )
}

/// How the commands that print the six keys of a cluster's TLS secrets ended.
#[derive(Debug)]
pub struct SecretReplies {
    pub server_cert: SecretReply,
    pub server_key: SecretReply,
    pub ca_cert: SecretReply,
    pub client_cert: SecretReply,
    pub client_key: SecretReply,
    pub client_ca: SecretReply,
}

/// What `SecretReplies` tell.
pub struct SecretRepliesView {
    pub server_cert: SecretReplyView,
    pub server_key: SecretReplyView,
    pub ca_cert: SecretReplyView,
    pub client_cert: SecretReplyView,
    pub client_key: SecretReplyView,
    pub client_ca: SecretReplyView,
}

impl View for SecretReplies {
    type V = SecretRepliesView;

    open spec fn view(&self) -> SecretRepliesView {
        SecretRepliesView {
            server_cert: self.server_cert@,
            server_key: self.server_key@,
            ca_cert: self.ca_cert@,
            client_cert: self.client_cert@,
            client_key: self.client_key@,
            client_ca: self.client_ca@,
        }
    }
}

/// What the six keys read as.
pub struct SecretReadings {
    pub server_cert: Result<Seq<char>, Seq<char>>,
    pub server_key: Result<Seq<char>, Seq<char>>,
    pub ca_cert: Result<Seq<char>, Seq<char>>,
    pub client_cert: Result<Seq<char>, Seq<char>>,
    pub client_key: Result<Seq<char>, Seq<char>>,
    pub client_ca: Result<Seq<char>, Seq<char>>,
}

impl SecretRepliesView {
    /// What the six keys read as, each under its own secret and name.
    pub open spec fn readings(self) -> SecretReadings {
        let server = "navigator-server-tls"@;
        let client = "navigator-client-tls"@;
        SecretReadings {
            server_cert: reply_reading(server, "tls.crt"@, self.server_cert),
            server_key: reply_reading(server, "tls.key"@, self.server_key),
            ca_cert: reply_reading("navigator-server-client-ca"@, "ca.crt"@, self.ca_cert),
            client_cert: reply_reading(client, "tls.crt"@, self.client_cert),
            client_key: reply_reading(client, "tls.key"@, self.client_key),
            client_ca: reply_reading(client, "ca.crt"@, self.client_ca),
        }
    }
}

impl SecretReadings {
    /// Every key could be read.
    pub open spec fn complete(self) -> bool {
        &&& self.server_cert is Ok
        &&& self.server_key is Ok
        &&& self.ca_cert is Ok
        &&& self.client_cert is Ok
        &&& self.client_key is Ok
        &&& self.client_ca is Ok
    }

    /// Why the first key that could not be read could not.
    pub open spec fn first_failure(self) -> Seq<char> {
        if self.server_cert is Err {
            self.server_cert->Err_0
        } else if self.server_key is Err {
            self.server_key->Err_0
        } else if self.ca_cert is Err {
            self.ca_cert->Err_0
        } else if self.client_cert is Err {
            self.client_cert->Err_0
        } else if self.client_key is Err {
            self.client_key->Err_0
        } else {
            self.client_ca->Err_0
        }
    }

    /// The values that were read.
    pub open spec fn values(self) -> SecretValuesView {
        SecretValuesView {
            server_cert: self.server_cert->Ok_0,
            server_key: self.server_key->Ok_0,
            ca_cert: self.ca_cert->Ok_0,
            client_cert: self.client_cert->Ok_0,
            client_key: self.client_key->Ok_0,
            client_ca: self.client_ca->Ok_0,
        }
    }
}

/// The bundle that a cluster stores, by the replies of the commands that print it,
/// or why it cannot be loaded.
pub open spec fn loaded(replies: SecretRepliesView) -> Result<PkiBundleView, Seq<char>> {
    let readings = replies.readings();
    if readings.complete() {
        assembled(readings.values())
    } else {
        Err(readings.first_failure())
    }
}

/// What a bundle or the description of its failure holds.
pub open spec fn bundle_view(result: Result<PkiBundle, String>) -> Result<
    PkiBundleView,
    Seq<char>,
> {
    match result {
        Ok(bundle) => Ok(bundle@),
        Err(reason) => Err(reason@),
    }
}

/// Reconstruct the bundle that a cluster stores from the replies of the commands
/// that print its TLS secrets.
///
/// Returns an error string describing why the secrets couldn't be loaded (for
/// logging): the first key that cannot be read, or else the first value that does
/// not contain a PEM marker.
pub fn load_existing_pki_bundle(replies: &SecretReplies) -> (bundle: Result<PkiBundle, String>)
    ensures
        bundle_view(bundle) == loaded(replies@),
{
    let server = server_tls_secret_name();
    let ca = server_client_ca_secret_name();
    let client = client_tls_secret_name();
    let server_cert = match read_secret_key(server, "tls.crt", &replies.server_cert) {
        Ok(value) => value,
        Err(reason) => {
            return Err(reason);
        },
    };
    let server_key = match read_secret_key(server, "tls.key", &replies.server_key) {
        Ok(value) => value,
        Err(reason) => {
            return Err(reason);
        },
    };
    let ca_cert = match read_secret_key(ca, "ca.crt", &replies.ca_cert) {
        Ok(value) => value,
        Err(reason) => {
            return Err(reason);
        },
    };
    let client_cert = match read_secret_key(client, "tls.crt", &replies.client_cert) {
        Ok(value) => value,
        Err(reason) => {
            return Err(reason);
        },
    };
    let client_key = match read_secret_key(client, "tls.key", &replies.client_key) {
        Ok(value) => value,
        Err(reason) => {
            return Err(reason);
        },
    };
    let client_ca = match read_secret_key(client, "ca.crt", &replies.client_ca) {
        Ok(value) => value,
        Err(reason) => {
            return Err(reason);
        },
    };
    assemble_bundle(
        SecretValues { server_cert, server_key, ca_cert, client_cert, client_key, client_ca },
    )
}

/// A stored bundle is loaded if and only if every key can be read and every value
/// is PEM. What is loaded holds the values that were read and no CA key.
pub proof fn law_loaded_iff_complete_and_pem(replies: SecretRepliesView)
    ensures
        ({
            let readings = replies.readings();
            let values = readings.values();
            &&& loaded(replies) is Ok <==> {
                &&& readings.complete()
                &&& is_pem(values.server_cert)
                &&& is_pem(values.server_key)
                &&& is_pem(values.ca_cert)
                &&& is_pem(values.client_cert)
                &&& is_pem(values.client_key)
                &&& is_pem(values.client_ca)
            }
            &&& loaded(replies) is Ok ==> {
                let bundle = loaded(replies)->Ok_0;
                &&& bundle.stored_parts_are_pem()
                &&& bundle.ca_key_pem.len() == 0
                &&& bundle.stored_values() == (SecretValuesView {
                    client_ca: values.ca_cert,
                    ..values
                })
            }
        }),
{
}

/// How the command that prints `key` of the secret of the given name ends where
/// the cluster holds `secrets`.
pub open spec fn printed(
    secrets: Seq<TlsSecretView>,
    name: Seq<char>,
    key: Seq<char>,
) -> SecretReplyView {
    match stored_under(secrets, name, key) {
        Some(value) => SecretReplyView::Ran { output: value, exit_code: 0 },
        None => SecretReplyView::Ran { output: Seq::empty(), exit_code: 1 },
    }
}

/// How the commands that print the six keys end where the cluster holds `secrets`.
pub open spec fn printed_replies(secrets: Seq<TlsSecretView>) -> SecretRepliesView {
    let server = "navigator-server-tls"@;
    let client = "navigator-client-tls"@;
    SecretRepliesView {
        server_cert: printed(secrets, server, "tls.crt"@),
        server_key: printed(secrets, server, "tls.key"@),
        ca_cert: printed(secrets, "navigator-server-client-ca"@, "ca.crt"@),
        client_cert: printed(secrets, client, "tls.crt"@),
        client_key: printed(secrets, client, "tls.key"@),
        client_ca: printed(secrets, client, "ca.crt"@),
    }
}

/// What is PEM is not empty.
proof fn lemma_pem_nonempty(data: Seq<char>)
    requires
        is_pem(data),
    ensures
        data.len() > 0,
{
    reveal_strlit("-----BEGIN ");
}

/// The secrets that hold `bundle`, in the order in which they are applied. Where
/// the bundle is PEM, loading what a cluster that holds the secrets prints gives the
/// bundle again, without the CA key.
pub fn tls_secrets(bundle: &PkiBundle) -> (secrets: Vec<TlsSecret>)
    requires
        bundle@.stored_parts_are_encodable(),
    ensures
        secret_views(secrets@) == tls_secret_views(bundle@),
        bundle@.stored_parts_are_pem() ==> loaded(printed_replies(secret_views(secrets@))) == Ok::<
            PkiBundleView,
            Seq<char>,
        >(bundle@.without_ca_key()),
{
    let server_cert = encode_secret_value(bundle.server_cert_pem.as_str());
    let server_key = encode_secret_value(bundle.server_key_pem.as_str());
    let ca_cert = encode_secret_value(bundle.ca_cert_pem.as_str());
    let client_cert = encode_secret_value(bundle.client_cert_pem.as_str());
    let client_key = encode_secret_value(bundle.client_key_pem.as_str());
    let client_ca = ca_cert.clone();
    let server_tls: Vec<(String, String)> = vec![
        ("tls.crt".to_owned(), server_cert),
        ("tls.key".to_owned(), server_key),
    ];
    let server_client_ca: Vec<(String, String)> = vec![("ca.crt".to_owned(), ca_cert)];
    let client_tls: Vec<(String, String)> = vec![
        ("tls.crt".to_owned(), client_cert),
        ("tls.key".to_owned(), client_key),
        ("ca.crt".to_owned(), client_ca),
    ];
    let secrets: Vec<TlsSecret> = vec![
        TlsSecret {
            name: server_tls_secret_name().to_owned(),
            kind: "kubernetes.io/tls".to_owned(),
            data: server_tls,
        },
        TlsSecret {
            name: server_client_ca_secret_name().to_owned(),
            kind: "Opaque".to_owned(),
            data: server_client_ca,
        },
        TlsSecret {
            name: client_tls_secret_name().to_owned(),
            kind: "Opaque".to_owned(),
            data: client_tls,
        },
    ];
    proof {
        let all = tls_secret_views(bundle@);
        assert(pair_views(server_tls@) =~= all[0].data);
        assert(pair_views(server_client_ca@) =~= all[1].data);
        assert(pair_views(client_tls@) =~= all[2].data);
        assert(secret_views(secrets@) =~= all);
        if bundle@.stored_parts_are_pem() {
            lemma_pem_nonempty(bundle@.server_cert_pem);
            lemma_pem_nonempty(bundle@.server_key_pem);
            lemma_pem_nonempty(bundle@.ca_cert_pem);
            lemma_pem_nonempty(bundle@.client_cert_pem);
            lemma_pem_nonempty(bundle@.client_key_pem);
            lemma_stored_under(bundle@);
        }
    }
    secrets
}

/// Where the secrets of a bundle hold its parts.
proof fn lemma_stored_under(bundle: PkiBundleView)
    ensures
        ({
            let all = tls_secret_views(bundle);
            &&& stored_under(all, "navigator-server-tls"@, "tls.crt"@) == Some(
                secret_value(bundle.server_cert_pem),
            )
            &&& stored_under(all, "navigator-server-tls"@, "tls.key"@) == Some(
                secret_value(bundle.server_key_pem),
            )
            &&& stored_under(all, "navigator-server-client-ca"@, "ca.crt"@) == Some(
                secret_value(bundle.ca_cert_pem),
            )
            &&& stored_under(all, "navigator-client-tls"@, "tls.crt"@) == Some(
                secret_value(bundle.client_cert_pem),
            )
            &&& stored_under(all, "navigator-client-tls"@, "tls.key"@) == Some(
                secret_value(bundle.client_key_pem),
            )
            &&& stored_under(all, "navigator-client-tls"@, "ca.crt"@) == Some(
                secret_value(bundle.ca_cert_pem),
            )
        }),
{
    reveal_strlit("navigator-server-tls");
    reveal_strlit("navigator-server-client-ca");
    reveal_strlit("navigator-client-tls");
    reveal_strlit("tls.crt");
    reveal_strlit("tls.key");
    reveal_strlit("ca.crt");
    reveal_with_fuel(stored_under, 4);
    reveal_with_fuel(data_under, 4);
    let all = tls_secret_views(bundle);
    assert("navigator-server-tls"@[10] != "navigator-client-tls"@[10]);
    assert("navigator-server-tls"@.len() != "navigator-server-client-ca"@.len());
    assert("navigator-client-tls"@.len() != "navigator-server-client-ca"@.len());
    assert("tls.crt"@[4] != "tls.key"@[4]);
    assert("tls.crt"@.len() != "ca.crt"@.len());
    assert("tls.key"@.len() != "ca.crt"@.len());
    assert(all.drop_first().drop_first() =~= seq![all[2]]);
    assert(all.drop_first().first() == all[1]);
}

impl TlsSecret {
    /// What a failure to apply the secret is reported as.
    pub fn apply_context(&self) -> (text: String)
        ensures
            text@ == "failed to create "@ + self.name@ + " secret"@,
    {
        let mut text = "failed to create ".to_owned();
        text.append(self.name.as_str());
        text.append(" secret");
        text
    }
}

/// How one secret is created.
#[derive(Debug)]
pub struct SecretCreation {
    /// The command that applies the secret's manifest.
    pub command: Vec<String>,
    /// What a failure of the command is reported as.
    pub context: String,
}

/// What `SecretCreation` holds.
pub struct SecretCreationView {
    pub command: Seq<Seq<char>>,
    pub context: Seq<char>,
}

impl View for SecretCreation {
    type V = SecretCreationView;

    open spec fn view(&self) -> SecretCreationView {
        SecretCreationView { command: views(self.command@), context: self.context@ }
    }
}

/// How `secret` is created.
pub open spec fn creation_of(kubeconfig: Seq<char>, secret: TlsSecretView) -> SecretCreationView {
    SecretCreationView {
        command: shell_args(
            apply_script(kubeconfig, json_object_text(secret.manifest_members())),
        ),
        context: "failed to create "@ + secret.name + " secret"@,
    }
}

/// What `creations` hold.
pub open spec fn creation_views(creations: Seq<SecretCreation>) -> Seq<SecretCreationView> {
    creations.map_values(|creation: SecretCreation| creation@)
}

/// How the secrets that hold `bundle` are created, in order.
pub open spec fn secret_creations(
    kubeconfig: Seq<char>,
    bundle: PkiBundleView,
) -> Seq<SecretCreationView> {
    tls_secret_views(bundle).map_values(
        |secret: TlsSecretView| creation_of(kubeconfig, secret),
    )
}

/// Plan the creation of the three TLS secrets that the server and sandbox pods
/// require, in the order in which they are created:
/// - `navigator-server-tls` (kubernetes.io/tls): server cert + key
/// - `navigator-server-client-ca` (Opaque): CA cert for verifying client certs
/// - `navigator-client-tls` (Opaque): client cert + key + CA cert
pub fn create_k8s_tls_secrets(kubeconfig: &str, bundle: &PkiBundle) -> (creations: Vec<
    SecretCreation,
>)
    requires
        bundle@.stored_parts_are_encodable(),
    ensures
        creation_views(creations@) == secret_creations(kubeconfig@, bundle@),
{
    let mut secrets = tls_secrets(bundle);
    let ghost stored = secrets@;
    assert(secret_views(stored).len() == 3);
    assert(forall|i: int| 0 <= i < 3 ==> #[trigger] stored[i]@ == secret_views(stored)[i]);
    let client_tls = secrets.pop().unwrap();
    let client_ca = secrets.pop().unwrap();
    let server_tls = secrets.pop().unwrap();
    let creations: Vec<SecretCreation> = vec![
        creation(kubeconfig, server_tls),
        creation(kubeconfig, client_ca),
        creation(kubeconfig, client_tls),
    ];
    assert(creation_views(creations@) =~= secret_creations(kubeconfig@, bundle@));
    creations
}

/// Plan the creation of `secret`.
fn creation(kubeconfig: &str, secret: TlsSecret) -> (creation: SecretCreation)
    ensures
        creation@ == creation_of(kubeconfig@, secret@),
{
    let context = secret.apply_context();
    let manifest = secret.manifest();
    SecretCreation { command: apply_command(kubeconfig, manifest.as_str()), context }
}

/// Whether a manifest was applied, by the way `kubectl apply` ended: it was if and
/// only if the command succeeded.
pub fn apply_outcome(exit_code: i64, output: &str) -> (outcome: Result<(), String>)
    ensures
        outcome is Ok <==> exit_code == 0,
        outcome matches Err(reason) ==> reason@ == "kubectl apply failed (exit "@
            + signed_decimal_text(exit_code as int) + "): "@ + output@,
{
    if exit_code != 0 {
        let mut reason = "kubectl apply failed (exit ".to_owned();
        reason.append(signed_decimal(exit_code).as_str());
        reason.append("): ");
        reason.append(output);
        return Err(reason);
    }
    Ok(())
}

/// What follows from the end of the command that creates one secret.
#[derive(Debug)]
pub enum ApplyStep {
    /// Go on with the creation of this index.
    Apply(usize),
    /// Every secret is created.
    Done,
    /// Give up and create no further secret: report the reason under the context.
    Abort { context: String, reason: String },
}

/// What an `ApplyStep` tells.
pub enum ApplyStepView {
    Apply(int),
    Done,
    Abort { context: Seq<char>, reason: Seq<char> },
}

impl View for ApplyStep {
    type V = ApplyStepView;

    open spec fn view(&self) -> ApplyStepView {
        match self {
            ApplyStep::Apply(next) => ApplyStepView::Apply(*next as int),
            ApplyStep::Done => ApplyStepView::Done,
            ApplyStep::Abort { context, reason } => ApplyStepView::Abort {
                context: context@,
                reason: reason@,
            },
        }
    }
}

/// The command ran and succeeded.
pub open spec fn is_applied(reply: SecretReplyView) -> bool {
    reply matches SecretReplyView::Ran { exit_code, .. } && exit_code == 0
}

/// Why the command that `reply` tells of created nothing.
pub open spec fn apply_failure(reply: SecretReplyView) -> Seq<char> {
    match reply {
        SecretReplyView::Ran { output, exit_code } => "kubectl apply failed (exit "@
            + signed_decimal_text(exit_code) + "): "@ + output,
        SecretReplyView::Failed(reason) => reason,
    }
}

/// What follows where the command of creation `at` ended as `reply` tells: the next
/// creation after a success, nothing after the last, and the end at a failure.
pub open spec fn apply_step(
    creations: Seq<SecretCreationView>,
    at: int,
    reply: SecretReplyView,
) -> ApplyStepView {
    if !is_applied(reply) {
        ApplyStepView::Abort { context: creations[at].context, reason: apply_failure(reply) }
    } else if at + 1 < creations.len() {
        ApplyStepView::Apply(at + 1)
    } else {
        ApplyStepView::Done
    }
}

/// What follows where the command of creation `at` ended as `reply` tells.
pub fn next_apply(creations: &Vec<SecretCreation>, at: usize, reply: &SecretReply) -> (step:
    ApplyStep)
    requires
        at < creations@.len(),
    ensures
        step@ == apply_step(creation_views(creations@), at as int, reply@),
{
    let ghost all = creation_views(creations@);
    assert(all.len() == creations@.len());
    assert(all[at as int] == creations@[at as int]@);
    let reason: String = match reply {
        SecretReply::Ran { output, exit_code } => match apply_outcome(*exit_code, output.as_str()) {
            Ok(()) => {
                return if at < creations.len() - 1 {
                    ApplyStep::Apply(at + 1)
                } else {
                    ApplyStep::Done
                };
            },
            Err(reason) => reason,
        },
        SecretReply::Failed(reason) => reason.clone(),
    };
    ApplyStep::Abort { context: creations[at].context.clone(), reason }
}

/// How the creation of secrets ends, from creation `at` on, where its commands end
/// as `replies` tell, one after the other; None where it goes on after all of them.
pub open spec fn creation_end(
    creations: Seq<SecretCreationView>,
    at: int,
    replies: Seq<SecretReplyView>,
) -> Option<ApplyStepView>
    decreases replies.len(),
{
    if replies.len() == 0 {
        None
    } else {
        match apply_step(creations, at, replies.first()) {
            ApplyStepView::Apply(next) => creation_end(creations, next, replies.drop_first()),
            end => Some(end),
        }
    }
}

/// How many commands are run until that end.
pub open spec fn commands_run(
    creations: Seq<SecretCreationView>,
    at: int,
    replies: Seq<SecretReplyView>,
) -> nat
    decreases replies.len(),
{
    if replies.len() == 0 {
        0
    } else {
        match apply_step(creations, at, replies.first()) {
            ApplyStepView::Apply(next) => 1 + commands_run(
                creations,
                next,
                replies.drop_first(),
            ),
            _ => 1,
        }
    }
}

/// Reply `k` is the first that does not tell of a success.
pub open spec fn fails_first_at(replies: Seq<SecretReplyView>, k: int) -> bool {
    &&& 0 <= k < replies.len()
    &&& !is_applied(replies[k])
    &&& forall|j: int| 0 <= j < k ==> is_applied(#[trigger] replies[j])
}

/// The rest of a run of creations ends well if and only if each of its commands
/// succeeds. Otherwise the first failure ends it, under its own context, and no
/// command after it is run.
pub proof fn law_first_failure_ends_creation(
    creations: Seq<SecretCreationView>,
    at: int,
    replies: Seq<SecretReplyView>,
)
    requires
        0 <= at < creations.len(),
        at + replies.len() == creations.len(),
    ensures
        creation_end(creations, at, replies) is Some,
        creation_end(creations, at, replies) == Some(ApplyStepView::Done) <==> forall|i: int|
            0 <= i < replies.len() ==> is_applied(#[trigger] replies[i]),
        forall|k: int| #[trigger]
            fails_first_at(replies, k) ==> {
                &&& creation_end(creations, at, replies) == Some(
                    ApplyStepView::Abort {
                        context: creations[at + k].context,
                        reason: apply_failure(replies[k]),
                    },
                )
                &&& commands_run(creations, at, replies) == k + 1
            },
    decreases replies.len(),
{
    let rest = replies.drop_first();
    assert(replies.first() == replies[0]);
    if is_applied(replies[0]) {
        if at + 1 < creations.len() {
            law_first_failure_ends_creation(creations, at + 1, rest);
        }
        assert(forall|i: int| 0 <= i < rest.len() ==> #[trigger] rest[i] == replies[i + 1]);
        assert forall|k: int| #[trigger] fails_first_at(replies, k) implies {
            &&& creation_end(creations, at, replies) == Some(
                ApplyStepView::Abort {
                    context: creations[at + k].context,
                    reason: apply_failure(replies[k]),
                },
            )
            &&& commands_run(creations, at, replies) == k + 1
        } by {
            assert(fails_first_at(rest, k - 1));
        }
        if forall|i: int| 0 <= i < rest.len() ==> is_applied(#[trigger] rest[i]) {
            assert forall|i: int| 0 <= i < replies.len() implies is_applied(
                #[trigger] replies[i],
            ) by {
                if i > 0 {
                    assert(replies[i] == rest[i - 1]);
                }
            }
        }
    }
}

/// The TLS secrets of a bundle are created if and only if all three commands
/// succeed. Otherwise the first that fails is reported, under the name of its
/// secret; those before it were run, and those after it are not.
pub proof fn law_secrets_created_iff_all_applied(
    kubeconfig: Seq<char>,
    bundle: PkiBundleView,
    replies: Seq<SecretReplyView>,
)
    requires
        replies.len() == 3,
    ensures
        ({
            let creations = secret_creations(kubeconfig, bundle);
            let end = creation_end(creations, 0, replies);
            &&& end is Some
            &&& end == Some(ApplyStepView::Done) <==> is_applied(replies[0]) && is_applied(
                replies[1],
            ) && is_applied(replies[2])
            &&& forall|k: int| #[trigger]
                fails_first_at(replies, k) ==> {
                    &&& end == Some(
                        ApplyStepView::Abort {
                            context: "failed to create "@ + tls_secret_views(bundle)[k].name
                                + " secret"@,
                            reason: apply_failure(replies[k]),
                        },
                    )
                    &&& commands_run(creations, 0, replies) == k + 1
                }
        }),
{
    let creations = secret_creations(kubeconfig, bundle);
    assert(creations.len() == 3);
    law_first_failure_ends_creation(creations, 0, replies);
    if is_applied(replies[0]) && is_applied(replies[1]) && is_applied(replies[2]) {
        assert forall|i: int| 0 <= i < replies.len() implies is_applied(#[trigger] replies[i]) by {
            assert(i == 0 || i == 1 || i == 2);
        }
    }
}

/// One key of one Kubernetes secret.
#[derive(Debug)]
pub struct SecretKey {
    pub secret: String,
    pub key: String,
}

/// The secret and the key that `keys` name.
pub open spec fn key_views(keys: Seq<SecretKey>) -> Seq<(Seq<char>, Seq<char>)> {
    keys.map_values(|key: SecretKey| (key.secret@, key.key@))
}

/// The secrets and keys that are read back.
pub open spec fn read_keys() -> Seq<(Seq<char>, Seq<char>)> {
    seq![
        ("navigator-server-tls"@, "tls.crt"@),
        ("navigator-server-tls"@, "tls.key"@),
        ("navigator-server-client-ca"@, "ca.crt"@),
        ("navigator-client-tls"@, "tls.crt"@),
        ("navigator-client-tls"@, "tls.key"@),
        ("navigator-client-tls"@, "ca.crt"@),
    ]
}

/// The keys of a cluster's TLS secrets that are read back, in the order of the
/// fields of `SecretValues`.
pub fn stored_keys() -> (keys: Vec<SecretKey>)
    ensures
        key_views(keys@) == read_keys(),
{
    let server = server_tls_secret_name();
    let client = client_tls_secret_name();
    let keys: Vec<SecretKey> = vec![
        SecretKey { secret: server.to_owned(), key: "tls.crt".to_owned() },
        SecretKey { secret: server.to_owned(), key: "tls.key".to_owned() },
        SecretKey { secret: server_client_ca_secret_name().to_owned(), key: "ca.crt".to_owned() },
        SecretKey { secret: client.to_owned(), key: "tls.crt".to_owned() },
        SecretKey { secret: client.to_owned(), key: "tls.key".to_owned() },
        SecretKey { secret: client.to_owned(), key: "ca.crt".to_owned() },
    ];
    assert(key_views(keys@) =~= read_keys());
    keys
}

/// A text counts as PEM if and only if it holds the opening marker, whatever stands
/// before it and whichever label follows.
pub proof fn law_marker_makes_pem(before: Seq<char>, after: Seq<char>, data: Seq<char>)
    ensures
        is_pem(before + "-----BEGIN "@ + after),
        is_pem(data) <==> exists|head: Seq<char>, tail: Seq<char>|
            data == #[trigger] (head + "-----BEGIN "@ + tail),
{
    law_needle_between_is_contained(before, "-----BEGIN "@, after);
    law_contained_is_between(data, "-----BEGIN "@);
}

/// Bundles whose parts all open with a marker, each with any label, are loaded; the
/// bundle holds each part as it was read.
pub proof fn law_marked_values_make_a_bundle(values: SecretValuesView)
    ensures
        ({
            let marked = |data: Seq<char>|
                exists|head: Seq<char>, tail: Seq<char>|
                    data == #[trigger] (head + "-----BEGIN "@ + tail);
            &&& assembled(values) is Ok <==> {
                &&& marked(values.server_cert)
                &&& marked(values.server_key)
                &&& marked(values.ca_cert)
                &&& marked(values.client_cert)
                &&& marked(values.client_key)
                &&& marked(values.client_ca)
            }
            &&& assembled(values) matches Ok(bundle) ==> {
                &&& bundle.server_cert_pem == values.server_cert
                &&& bundle.server_key_pem == values.server_key
                &&& bundle.ca_cert_pem == values.ca_cert
                &&& bundle.client_cert_pem == values.client_cert
                &&& bundle.client_key_pem == values.client_key
                &&& bundle.ca_key_pem.len() == 0
            }
        }),
{
    law_contained_is_between(values.server_cert, "-----BEGIN "@);
    law_contained_is_between(values.server_key, "-----BEGIN "@);
    law_contained_is_between(values.ca_cert, "-----BEGIN "@);
    law_contained_is_between(values.client_cert, "-----BEGIN "@);
    law_contained_is_between(values.client_key, "-----BEGIN "@);
    law_contained_is_between(values.client_ca, "-----BEGIN "@);
}

/// A stored bundle is loaded if and only if each of the six keys reads as a text in
/// which the opening marker stands, whatever its label. Its parts are what the keys
/// read as: the server's from the server secret, the client's from the client
/// secret, and the CA from the secret that clients are verified against.
pub proof fn law_bundle_loads_iff_every_key_is_marked(replies: SecretRepliesView)
    ensures
        ({
            let marked = |reading: Result<Seq<char>, Seq<char>>|
                reading is Ok && exists|head: Seq<char>, tail: Seq<char>|
                    reading->Ok_0 == #[trigger] (head + "-----BEGIN "@ + tail);
            let server_cert = reply_reading(
                "navigator-server-tls"@,
                "tls.crt"@,
                replies.server_cert,
            );
            let server_key = reply_reading(
                "navigator-server-tls"@,
                "tls.key"@,
                replies.server_key,
            );
            let ca_cert = reply_reading(
                "navigator-server-client-ca"@,
                "ca.crt"@,
                replies.ca_cert,
            );
            let client_cert = reply_reading(
                "navigator-client-tls"@,
                "tls.crt"@,
                replies.client_cert,
            );
            let client_key = reply_reading(
                "navigator-client-tls"@,
                "tls.key"@,
                replies.client_key,
            );
            let client_ca = reply_reading("navigator-client-tls"@, "ca.crt"@, replies.client_ca);
            &&& loaded(replies) is Ok <==> {
                &&& marked(server_cert)
                &&& marked(server_key)
                &&& marked(ca_cert)
                &&& marked(client_cert)
                &&& marked(client_key)
                &&& marked(client_ca)
            }
            &&& loaded(replies) matches Ok(bundle) ==> {
                &&& server_cert == Ok::<Seq<char>, Seq<char>>(bundle.server_cert_pem)
                &&& server_key == Ok::<Seq<char>, Seq<char>>(bundle.server_key_pem)
                &&& ca_cert == Ok::<Seq<char>, Seq<char>>(bundle.ca_cert_pem)
                &&& client_cert == Ok::<Seq<char>, Seq<char>>(bundle.client_cert_pem)
                &&& client_key == Ok::<Seq<char>, Seq<char>>(bundle.client_key_pem)
                &&& bundle.ca_key_pem.len() == 0
            }
        }),
{
    law_marked_values_make_a_bundle(replies.readings().values());
}

/// A key reads as a text if and only if its command ran and succeeded, printed
/// something that is base64, white space around it aside, and that stands for the
/// bytes of the text. The names of the secret and the key do not matter.
pub proof fn law_key_reads_as_what_its_base64_stands_for(
    secret: Seq<char>,
    key: Seq<char>,
    reply: SecretReplyView,
    value: Seq<char>,
)
    ensures
        reply_reading(secret, key, reply) == Ok::<Seq<char>, Seq<char>>(value) <==> (
        reply matches SecretReplyView::Ran { output, exit_code } && exit_code == 0 && trimmed(
            output,
        ).len() > 0 && base64_decoding(trimmed(output)) == Ok::<Seq<u8>, Seq<char>>(
            encode_utf8(value),
        )),
{
    encode_utf8_valid_utf8(value);
    encode_utf8_decode_utf8(value);
    if let SecretReplyView::Ran { output, exit_code } = reply {
        if let Ok(bytes) = base64_decoding(trimmed(output)) {
            if valid_utf8(bytes) {
                decode_utf8_encode_utf8(bytes);
            }
        }
    }
}

/// The secrets of a bundle hold each of its parts in base64, where clients and
/// servers look for it, and hold nothing of the CA key.
pub proof fn law_secrets_hold_the_bundle(bundle: PkiBundleView)
    ensures
        ({
            let secrets = tls_secret_views(bundle);
            let holds = |name: Seq<char>, key: Seq<char>, part: Seq<char>|
                stored_under(secrets, name, key) == Some(base64_text(encode_utf8(part)));
            &&& holds("navigator-server-tls"@, "tls.crt"@, bundle.server_cert_pem)
            &&& holds("navigator-server-tls"@, "tls.key"@, bundle.server_key_pem)
            &&& holds("navigator-server-client-ca"@, "ca.crt"@, bundle.ca_cert_pem)
            &&& holds("navigator-client-tls"@, "tls.crt"@, bundle.client_cert_pem)
            &&& holds("navigator-client-tls"@, "tls.key"@, bundle.client_key_pem)
            &&& holds("navigator-client-tls"@, "ca.crt"@, bundle.ca_cert_pem)
            &&& secrets.len() == 3
            &&& secrets[0].data.len() == 2 && secrets[1].data.len() == 1 && secrets[2].data.len()
                == 3
            &&& secrets == tls_secret_views(PkiBundleView { ca_key_pem: Seq::empty(), ..bundle })
        }),
{
    lemma_stored_under(bundle);
}

/// The creation of a bundle's secrets ends well if and only if all three commands
/// ran and exited with 0. Where the first failed, it alone was run; where the
/// second, two; each time the error is reported under the secret that failed.
pub proof fn law_creation_needs_three_exits_with_zero(
    kubeconfig: Seq<char>,
    bundle: PkiBundleView,
    server_tls: SecretReplyView,
    client_ca: SecretReplyView,
    client_tls: SecretReplyView,
)
    ensures
        ({
            let creations = secret_creations(kubeconfig, bundle);
            let replies = seq![server_tls, client_ca, client_tls];
            let end = creation_end(creations, 0, replies);
            let count = commands_run(creations, 0, replies);
            let first = server_tls matches SecretReplyView::Ran { exit_code, .. } && exit_code
                == 0;
            let second = client_ca matches SecretReplyView::Ran { exit_code, .. } && exit_code
                == 0;
            let third = client_tls matches SecretReplyView::Ran { exit_code, .. } && exit_code
                == 0;
            &&& end == Some(ApplyStepView::Done) <==> first && second && third
            &&& !first ==> count == 1 && (end matches Some(
                ApplyStepView::Abort { context, .. },
            ) && context == "failed to create "@ + "navigator-server-tls"@ + " secret"@)
            &&& first && !second ==> count == 2 && (end matches Some(
                ApplyStepView::Abort { context, .. },
            ) && context == "failed to create "@ + "navigator-server-client-ca"@ + " secret"@)
            &&& first && second ==> count == 3
            &&& first && second && !third ==> (end matches Some(
                ApplyStepView::Abort { context, .. },
            ) && context == "failed to create "@ + "navigator-client-tls"@ + " secret"@)
        }),
{
    let creations = secret_creations(kubeconfig, bundle);
    let replies = seq![server_tls, client_ca, client_tls];
    assert(creations.len() == 3);
    reveal_with_fuel(creation_end, 4);
    reveal_with_fuel(commands_run, 4);
    assert(replies.drop_first() =~= seq![client_ca, client_tls]);
    assert(replies.drop_first().drop_first() =~= seq![client_tls]);
    assert(creations[0].context == "failed to create "@ + "navigator-server-tls"@ + " secret"@);
    assert(creations[1].context == "failed to create "@ + "navigator-server-client-ca"@
        + " secret"@);
    assert(creations[2].context == "failed to create "@ + "navigator-client-tls"@ + " secret"@);
}

/// Each key that is read back is one that the secrets of every bundle hold, with the
/// part that the loader takes from it: server certificate and key, the CA, client
/// certificate and key, and the CA again.
pub proof fn law_read_keys_are_the_stored_ones(bundle: PkiBundleView)
    ensures
        ({
            let held = |i: int|
                stored_under(tls_secret_views(bundle), read_keys()[i].0, read_keys()[i].1);
            let encoded = |part: Seq<char>| Some(base64_text(encode_utf8(part)));
            &&& read_keys().len() == 6
            &&& held(0) == encoded(bundle.server_cert_pem)
            &&& held(1) == encoded(bundle.server_key_pem)
            &&& held(2) == encoded(bundle.ca_cert_pem)
            &&& held(3) == encoded(bundle.client_cert_pem)
            &&& held(4) == encoded(bundle.client_key_pem)
            &&& held(5) == encoded(bundle.ca_cert_pem)
        }),
{
    lemma_stored_under(bundle);
}

/// Every text of at most three quarters of the memory that can be addressed can be
/// stored in a secret, and a bundle can be stored where each of its parts can.
pub proof fn law_texts_that_fit_can_be_stored(value: Seq<char>, bundle: PkiBundleView)
    ensures
        4 * encode_utf8(value).len() + 12 <= 3 * isize::MAX ==> encodable(value),
        encodable(bundle.ca_cert_pem) && encodable(bundle.server_cert_pem) && encodable(
            bundle.server_key_pem,
        ) && encodable(bundle.client_cert_pem) && encodable(bundle.client_key_pem)
            ==> bundle.stored_parts_are_encodable(),
{
    law_four_symbols_for_three_bytes(encode_utf8(value).len());
}

/// A secret is created by a shell that applies its manifest with the given
/// kubeconfig, and a failure is reported under the name of the secret.
pub proof fn law_creation_applies_the_manifest(kubeconfig: Seq<char>, secret: TlsSecretView)
    ensures
        ({
            let creation = creation_of(kubeconfig, secret);
            let manifest = json_object_text(secret.manifest_members());
            &&& creation.command == seq!["sh"@, "-c"@, apply_script(kubeconfig, manifest)]
            &&& contains_text(creation.command[2], manifest)
            &&& contains_text(creation.context, secret.name)
        }),
{
    law_scripts_name_what_they_are_given(
        kubeconfig,
        json_object_text(secret.manifest_members()),
        Seq::empty(),
    );
    law_needle_between_is_contained("failed to create "@, secret.name, " secret"@);
}

} // verus!
