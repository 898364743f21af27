//! Commands that run inside the cluster container.

use vstd::prelude::*;
use vstd::string::*;
use crate::text::{
    chars_of, contains_text, first_index, law_needle_between_is_contained, lemma_first_index,
    split_text, views,
};

verus! {

/// The arguments that run `script` in a shell.
pub open spec fn shell_args(script: Seq<char>) -> Seq<Seq<char>> {
    seq!["sh"@, "-c"@, script]
}

/// The arguments that run `script` in a shell.
pub fn shell(script: String) -> (args: Vec<String>)
    ensures
        views(args@) == shell_args(script@),
{
    let args: Vec<String> = vec!["sh".to_owned(), "-c".to_owned(), script];
    assert(views(args@) =~= shell_args(script@));
    args
}

/// The script that applies `manifest`, handed to `kubectl` as a here-document.
pub open spec fn apply_script(kubeconfig: Seq<char>, manifest: Seq<char>) -> Seq<char> {
    "KUBECONFIG="@ + kubeconfig + " kubectl apply -f - <<'ENDOFMANIFEST'\n"@ + manifest
        + "\nENDOFMANIFEST"@
}

/// The command that applies `manifest` to the cluster.
pub fn apply_command(kubeconfig: &str, manifest: &str) -> (args: Vec<String>)
    ensures
        views(args@) == shell_args(apply_script(kubeconfig@, manifest@)),
{
    let mut script = "KUBECONFIG=".to_owned();
    script.append(kubeconfig);
    script.append(" kubectl apply -f - <<'ENDOFMANIFEST'\n");
    script.append(manifest);
    script.append("\nENDOFMANIFEST");
    shell(script)
}

/// `name` with a backslash before every dot, as a JSONPath member name.
pub open spec fn escaped_dots(name: Seq<char>) -> Seq<char>
    decreases name.len(),
{
    if name.len() == 0 {
        Seq::empty()
    } else if name.last() == '.' {
        escaped_dots(name.drop_last()) + "\\."@
    } else {
        escaped_dots(name.drop_last()).push(name.last())
    }
}

/// `name` with a backslash before every dot.
fn escape_dots(name: &str) -> (escaped: String)
    ensures
        escaped@ == escaped_dots(name@),
{
    let chars = chars_of(name);
    let mut escaped = String::new();
    let mut i: usize = 0;
    while i < chars.len()
        invariant
            chars@ == name@,
            i <= chars@.len(),
            escaped@ == escaped_dots(name@.take(i as int)),
        decreases chars@.len() - i,
    {
        let ghost longer = name@.take(i + 1);
        assert(longer.drop_last() =~= name@.take(i as int));
        if chars[i] == '.' {
            escaped.append("\\.");
        } else {
            escaped.append(name.substring_char(i, i + 1));
            assert(escaped@ =~= escaped_dots(longer.drop_last()).push(name@[i as int]));
        }
        i += 1;
    }
    assert(name@.take(name@.len() as int) =~= name@);
    escaped
}

/// The script that prints `key` of the Kubernetes secret `secret`.
pub open spec fn read_secret_script(
    kubeconfig: Seq<char>,
    secret: Seq<char>,
    key: Seq<char>,
) -> Seq<char> {
    "KUBECONFIG="@ + kubeconfig + " kubectl get secret "@ + secret
        + " -n navigator -o jsonpath='{.data."@ + escaped_dots(key) + "}' 2>/dev/null"@
}

/// The command that prints `key` of the Kubernetes secret `secret`.
pub fn read_secret_command(kubeconfig: &str, secret: &str, key: &str) -> (args: Vec<String>)
    ensures
        views(args@) == shell_args(read_secret_script(kubeconfig@, secret@, key@)),
{
    let mut script = "KUBECONFIG=".to_owned();
    script.append(kubeconfig);
    script.append(" kubectl get secret ");
    script.append(secret);
    script.append(" -n navigator -o jsonpath='{.data.");
    script.append(escape_dots(key).as_str());
    script.append("}' 2>/dev/null");
    shell(script)
}

/// The script that tells whether a namespace exists.
pub open spec fn namespace_script(kubeconfig: Seq<char>, namespace: Seq<char>) -> Seq<char> {
    "KUBECONFIG="@ + kubeconfig + " kubectl get namespace "@ + namespace + " -o name 2>&1"@
}

/// The command that tells whether `namespace` exists.
pub fn namespace_command(kubeconfig: &str, namespace: &str) -> (args: Vec<String>)
    ensures
        views(args@) == shell_args(namespace_script(kubeconfig@, namespace@)),
{
    let mut script = "KUBECONFIG=".to_owned();
    script.append(kubeconfig);
    script.append(" kubectl get namespace ");
    script.append(namespace);
    script.append(" -o name 2>&1");
    shell(script)
}

/// Splitting after a first piece without the mark.
proof fn lemma_split_first(piece: Seq<char>, mark: char, rest: Seq<char>)
    requires
        !piece.contains(mark),
    ensures
        split_text(piece + seq![mark] + rest, mark) == seq![piece] + split_text(rest, mark),
{
    let text = piece + seq![mark] + rest;
    lemma_first_index(text, mark);
    let at = first_index(text, mark);
    assert(text[piece.len() as int] == mark);
    if at < piece.len() {
        assert(piece[at] == mark);
    }
    assert(at == piece.len());
    assert(text.take(at) =~= piece);
    assert(text.skip(at + 1) =~= rest);
}

/// A text without the mark is the only piece of itself.
proof fn lemma_split_none(piece: Seq<char>, mark: char)
    requires
        !piece.contains(mark),
    ensures
        split_text(piece, mark) == seq![piece],
{
    lemma_first_index(piece, mark);
    let at = first_index(piece, mark);
    if at < piece.len() {
        assert(piece[at] == mark);
    }
}

/// A manifest on one line that opens with a brace is all that the here-document
/// holds: the script has one line before it, the manifest, and the closing line,
/// and the manifest is not taken for the closing line.
pub proof fn law_manifest_is_the_here_document(kubeconfig: Seq<char>, manifest: Seq<char>)
    requires
        !kubeconfig.contains('\n'),
        !manifest.contains('\n'),
        manifest.len() > 0,
        manifest.first() == '{',
    ensures
        split_text(apply_script(kubeconfig, manifest), '\n') == seq![
            "KUBECONFIG="@ + kubeconfig + " kubectl apply -f - <<'ENDOFMANIFEST'"@,
            manifest,
            "ENDOFMANIFEST"@,
        ],
        manifest != "ENDOFMANIFEST"@,
{
    reveal_strlit("KUBECONFIG=");
    reveal_strlit(" kubectl apply -f - <<'ENDOFMANIFEST'\n");
    reveal_strlit(" kubectl apply -f - <<'ENDOFMANIFEST'");
    reveal_strlit("\nENDOFMANIFEST");
    reveal_strlit("ENDOFMANIFEST");
    let opening = "KUBECONFIG="@ + kubeconfig + " kubectl apply -f - <<'ENDOFMANIFEST'"@;
    let closing = "ENDOFMANIFEST"@;
    let rest = manifest + seq!['\n'] + closing;
    assert(" kubectl apply -f - <<'ENDOFMANIFEST'\n"@
        =~= " kubectl apply -f - <<'ENDOFMANIFEST'"@ + seq!['\n']);
    assert("\nENDOFMANIFEST"@ =~= seq!['\n'] + closing);
    assert(apply_script(kubeconfig, manifest) =~= opening + seq!['\n'] + rest);
    assert(!opening.contains('\n')) by {
        if opening.contains('\n') {
            let i = choose|i: int| 0 <= i < opening.len() && opening[i] == '\n';
            let start = "KUBECONFIG="@.len();
            if start <= i < start + kubeconfig.len() {
                assert(kubeconfig[i - start] == '\n');
            }
        }
    }
    lemma_split_first(opening, '\n', rest);
    lemma_split_first(manifest, '\n', closing);
    lemma_split_none(closing, '\n');
    assert(seq![opening] + (seq![manifest] + seq![closing]) =~= seq![opening, manifest, closing]);
}

/// Dots are escaped one by one: what stands before a dot and what stands after it
/// are escaped on their own, and a name without a dot stays as it is.
pub proof fn law_dots_are_escaped_one_by_one(a: Seq<char>, b: Seq<char>)
    ensures
        escaped_dots(a + b) == escaped_dots(a) + escaped_dots(b),
        escaped_dots(a + seq!['.'] + b) == escaped_dots(a) + seq!['\\', '.'] + escaped_dots(b),
        !a.contains('.') ==> escaped_dots(a) == a,
{
    reveal_strlit("\\.");
    lemma_escaped_concat(a, b);
    lemma_escaped_concat(a + seq!['.'], b);
    assert((a + seq!['.']).drop_last() =~= a);
    assert("\\."@ =~= seq!['\\', '.']);
    assert(escaped_dots(a) + seq!['\\', '.'] + escaped_dots(b) =~= escaped_dots(a + seq!['.'])
        + escaped_dots(b));
    if !a.contains('.') {
        lemma_escaped_none(a);
    }
}

proof fn lemma_escaped_concat(a: Seq<char>, b: Seq<char>)
    ensures
        escaped_dots(a + b) == escaped_dots(a) + escaped_dots(b),
    decreases b.len(),
{
    if b.len() == 0 {
        assert(a + b =~= a);
        assert(escaped_dots(a) + escaped_dots(b) =~= escaped_dots(a));
    } else {
        lemma_escaped_concat(a, b.drop_last());
        assert((a + b).drop_last() =~= a + b.drop_last());
        assert(escaped_dots(a + b) =~= escaped_dots(a) + escaped_dots(b));
    }
}

proof fn lemma_escaped_none(a: Seq<char>)
    requires
        !a.contains('.'),
    ensures
        escaped_dots(a) == a,
    decreases a.len(),
{
    if a.len() > 0 {
        assert(a[a.len() - 1] == a.last());
        let rest = a.drop_last();
        assert(!rest.contains('.')) by {
            if rest.contains('.') {
                let i = choose|i: int| 0 <= i < rest.len() && rest[i] == '.';
                assert(a[i] == '.');
            }
        }
        lemma_escaped_none(rest);
        assert(escaped_dots(a) =~= a);
    }
}

/// Every script runs `kubectl` with the given kubeconfig, on the secret, key,
/// manifest or namespace that is given; secrets are read from the namespace that
/// they are created in.
pub proof fn law_scripts_name_what_they_are_given(
    kubeconfig: Seq<char>,
    subject: Seq<char>,
    key: Seq<char>,
)
    ensures
        ({
            let opening = "KUBECONFIG="@ + kubeconfig;
            let apply = apply_script(kubeconfig, subject);
            let read = read_secret_script(kubeconfig, subject, key);
            let look = namespace_script(kubeconfig, subject);
            &&& apply.take(opening.len() as int) == opening
            &&& read.take(opening.len() as int) == opening
            &&& look.take(opening.len() as int) == opening
            &&& contains_text(apply, " kubectl apply -f - "@)
            &&& contains_text(apply, subject)
            &&& contains_text(read, " kubectl get secret "@ + subject + " -n navigator "@)
            &&& contains_text(read, "{.data."@ + escaped_dots(key) + "}"@)
            &&& contains_text(look, " kubectl get namespace "@ + subject + " "@)
        }),
{
    reveal_strlit(" kubectl apply -f - ");
    reveal_strlit(" kubectl apply -f - <<'ENDOFMANIFEST'\n");
    reveal_strlit("<<'ENDOFMANIFEST'\n");
    reveal_strlit(" -n navigator ");
    reveal_strlit(" -n navigator -o jsonpath='{.data.");
    reveal_strlit("-o jsonpath='{.data.");
    reveal_strlit(" -n navigator -o jsonpath='");
    reveal_strlit("{.data.");
    reveal_strlit("}' 2>/dev/null");
    reveal_strlit("}");
    reveal_strlit("' 2>/dev/null");
    reveal_strlit(" -o name 2>&1");
    reveal_strlit(" ");
    reveal_strlit("-o name 2>&1");
    let opening = "KUBECONFIG="@ + kubeconfig;
    let apply = apply_script(kubeconfig, subject);
    let read = read_secret_script(kubeconfig, subject, key);
    let look = namespace_script(kubeconfig, subject);
    assert(apply.take(opening.len() as int) =~= opening);
    assert(read.take(opening.len() as int) =~= opening);
    assert(look.take(opening.len() as int) =~= opening);
    let tail = "<<'ENDOFMANIFEST'\n"@ + subject + "\nENDOFMANIFEST"@;
    assert(apply =~= opening + " kubectl apply -f - "@ + tail);
    law_needle_between_is_contained(opening, " kubectl apply -f - "@, tail);
    law_needle_between_is_contained(
        opening + " kubectl apply -f - <<'ENDOFMANIFEST'\n"@,
        subject,
        "\nENDOFMANIFEST"@,
    );
    let asked = " kubectl get secret "@ + subject + " -n navigator "@;
    let rest = "-o jsonpath='{.data."@ + escaped_dots(key) + "}' 2>/dev/null"@;
    assert(read =~= opening + asked + rest);
    law_needle_between_is_contained(opening, asked, rest);
    let member = "{.data."@ + escaped_dots(key) + "}"@;
    let before = opening + " kubectl get secret "@ + subject + " -n navigator -o jsonpath='"@;
    assert(read =~= before + member + "' 2>/dev/null"@);
    law_needle_between_is_contained(before, member, "' 2>/dev/null"@);
    let looked = " kubectl get namespace "@ + subject + " "@;
    assert(look =~= opening + looked + "-o name 2>&1"@);
    law_needle_between_is_contained(opening, looked, "-o name 2>&1"@);
}

} // verus!
