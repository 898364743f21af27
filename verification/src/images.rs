//! Which container images a deployment uses.

use vstd::prelude::*;
use vstd::string::*;
use crate::text::{
    first_index, is_blank, law_trimmed_again, lemma_first_index, opt_view, split, split_text, trim,
    trimmed, views,
};

verus! {

/// The default image, or the one that the environment names: `configured` where
/// it is more than white space.
pub open spec fn chosen_image(configured: Option<Seq<char>>, default: Seq<char>) -> Seq<char> {
    match configured {
        Some(image) => if trimmed(image).len() > 0 {
            image
        } else {
            default
        },
        None => default,
    }
}

/// The gateway image of a deployment that names none: what the environment
/// configures, taken as it is, or `default` where it configures nothing.
pub fn default_cluster_image_ref(configured: Option<String>, default: &str) -> (image: String)
    ensures
        image@ == chosen_image(opt_view(configured), default@),
{
    if let Some(image) = configured {
        if !is_blank(image.as_str()) {
            return image;
        }
    }
    default.to_owned()
}

/// The reference of version `version` of `image`.
pub fn versioned_image_ref(image: &str, version: &str) -> (image_ref: String)
    ensures
        image_ref@ == image@ + ":"@ + version@,
{
    let mut image_ref = image.to_owned();
    image_ref.append(":");
    image_ref.append(version);
    image_ref
}

/// The images that a comma-separated list names: its entries without the white
/// space around them, empty ones left out.
pub open spec fn image_list(list: Seq<char>) -> Seq<Seq<char>> {
    split_text(list, ',').map_values(|entry: Seq<char>| trimmed(entry)).filter(
        |entry: Seq<char>| entry.len() > 0,
    )
}

/// The images that a comma-separated list names.
pub fn parse_push_images(list: &str) -> (images: Vec<String>)
    ensures
        views(images@) == image_list(list@),
{
    let entries = split(list, ',');
    let ghost pieces = split_text(list@, ',');
    let ghost entry_trimmed = |entry: Seq<char>| trimmed(entry);
    let ghost nonempty = |entry: Seq<char>| entry.len() > 0;
    let ghost all = pieces.map_values(entry_trimmed);
    let mut images: Vec<String> = Vec::new();
    let mut i: usize = 0;
    proof {
        reveal(Seq::filter);
        assert(all.take(0) =~= seq![]);
        assert(views(images@) =~= all.take(0).filter(nonempty));
    }
    while i < entries.len()
        invariant
            i <= entries@.len(),
            entries@.map_values(|piece: &str| piece@) == pieces,
            all == pieces.map_values(entry_trimmed),
            entry_trimmed == (|entry: Seq<char>| trimmed(entry)),
            nonempty == (|entry: Seq<char>| entry.len() > 0),
            views(images@) == all.take(i as int).filter(nonempty),
        decreases entries@.len() - i,
    {
        let entry = trim(entries[i]);
        let ghost before = images@;
        proof {
            assert(pieces[i as int] == entries@[i as int]@);
            assert(all.take(i + 1).drop_last() =~= all.take(i as int));
            assert(all.take(i + 1).last() == entry@);
            reveal(Seq::filter);
        }
        if !entry.is_empty() {
            images.push(entry.to_owned());
            assert(views(images@) =~= views(before).push(entry@));
        }
        i += 1;
    }
    proof {
        assert(entries@.len() == pieces.len());
        assert(all.take(all.len() as int) =~= all);
    }
    images
}

/// What a filter keeps was there before.
proof fn lemma_filter_keeps(all: Seq<Seq<char>>, keep: spec_fn(Seq<char>) -> bool, i: int)
    requires
        0 <= i < all.filter(keep).len(),
    ensures
        all.contains(all.filter(keep)[i]),
        keep(all.filter(keep)[i]),
    decreases all.len(),
{
    reveal(Seq::filter);
    let earlier = all.drop_last();
    if i < earlier.filter(keep).len() {
        lemma_filter_keeps(earlier, keep, i);
        let k = choose|k: int| 0 <= k < earlier.len() && earlier[k] == all.filter(keep)[i];
        assert(all[k] == all.filter(keep)[i]);
    } else {
        assert(all[all.len() - 1] == all.filter(keep)[i]);
    }
}

/// Every image that a list names is a name: not empty, and without white space
/// around it.
pub proof fn law_images_are_trimmed(list: Seq<char>, i: int)
    requires
        0 <= i < image_list(list).len(),
    ensures
        image_list(list)[i].len() > 0,
        trimmed(image_list(list)[i]) == image_list(list)[i],
{
    let pieces = split_text(list, ',');
    let entry_trimmed = |entry: Seq<char>| trimmed(entry);
    let nonempty = |entry: Seq<char>| entry.len() > 0;
    let all = pieces.map_values(entry_trimmed);
    lemma_filter_keeps(all, nonempty, i);
    let k = choose|k: int| 0 <= k < all.len() && all[k] == all.filter(nonempty)[i];
    assert(all[k] == trimmed(pieces[k]));
    law_trimmed_again(pieces[k]);
}

/// A configured image is used as it is, unless it is blank; the default is used
/// exactly where nothing else is configured.
pub proof fn law_configured_image_goes_first(configured: Option<Seq<char>>, default: Seq<char>)
    ensures
        configured is Some && trimmed(configured->Some_0).len() > 0 ==> chosen_image(
            configured,
            default,
        ) == configured->Some_0,
        configured is None || trimmed(configured->Some_0).len() == 0 ==> chosen_image(
            configured,
            default,
        ) == default,
{
}

/// Splitting at a mark splits what stands before it and what stands after.
proof fn lemma_split_concat(a: Seq<char>, b: Seq<char>, mark: char)
    ensures
        split_text(a + seq![mark] + b, mark) == split_text(a, mark) + split_text(b, mark),
    decreases a.len(),
{
    let text = a + seq![mark] + b;
    lemma_first_index(a, mark);
    lemma_first_index(text, mark);
    let at = first_index(a, mark);
    assert(text[a.len() as int] == mark);
    let found = first_index(text, mark);
    if found < at {
        assert(a[found] == mark);
    }
    if at < found {
        assert(text[at] == mark);
    }
    if at < a.len() {
        let rest = a.skip(at + 1);
        lemma_split_concat(rest, b, mark);
        assert(text.skip(at + 1) =~= rest + seq![mark] + b);
        assert(text.take(at) =~= a.take(at));
        assert(seq![a.take(at)] + (split_text(rest, mark) + split_text(b, mark)) =~= (seq![
            a.take(at),
        ] + split_text(rest, mark)) + split_text(b, mark));
    } else {
        assert(text.take(at) =~= a);
        assert(text.skip(at + 1) =~= b);
    }
}

/// The images of a list are those of its part before a comma and then those of its
/// part after it.
pub proof fn law_lists_are_read_entry_by_entry(a: Seq<char>, b: Seq<char>)
    ensures
        image_list(a + seq![','] + b) == image_list(a) + image_list(b),
{
    lemma_split_concat(a, b, ',');
    let entry_trimmed = |entry: Seq<char>| trimmed(entry);
    let nonempty = |entry: Seq<char>| entry.len() > 0;
    let left = split_text(a, ',');
    let right = split_text(b, ',');
    assert((left + right).map_values(entry_trimmed) =~= left.map_values(entry_trimmed)
        + right.map_values(entry_trimmed));
    Seq::filter_distributes_over_add(
        left.map_values(entry_trimmed),
        right.map_values(entry_trimmed),
        nonempty,
    );
}

/// A list without a comma names one image, itself without the white space around
/// it, or none where it is blank.
pub proof fn law_single_entry_is_its_trimmed_text(entry: Seq<char>)
    requires
        !entry.contains(','),
    ensures
        image_list(entry) == (if trimmed(entry).len() > 0 {
            seq![trimmed(entry)]
        } else {
            seq![]
        }),
{
    lemma_first_index(entry, ',');
    let at = first_index(entry, ',');
    if at < entry.len() {
        assert(entry[at] == ',');
    }
    let all = split_text(entry, ',').map_values(|piece: Seq<char>| trimmed(piece));
    assert(all =~= seq![trimmed(entry)]);
    reveal_with_fuel(Seq::<Seq<char>>::filter, 2);
    assert(all.drop_last() =~= seq![]);
    assert(all.last() == trimmed(entry));
    assert(image_list(entry) =~= (if trimmed(entry).len() > 0 {
        seq![trimmed(entry)]
    } else {
        seq![]
    }));
}

} // verus!
