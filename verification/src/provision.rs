//! Image provisioning support: splitting an image reference into its
//! repository and tag components (with `latest` as the default tag),
//! decoding the tabular image listing a container engine prints into
//! inventory entries, and deciding whether a reference is already present
//! locally. The provisioner pulls only on a miss; the pull itself is
//! engine I/O and is requested through an orchestrator action.

use vstd::prelude::*;

use crate::model::LocalImage;
use crate::model::LocalImageModel;
use crate::text::lemma_first_where_bounds;
use crate::text::lemma_first_where_is;
use crate::text::spec_first_where;
use crate::text::str_starts_with;

verus! {

// ---------------------------------------------------------------------
// Repository and tag of an image reference
// ---------------------------------------------------------------------

pub open spec fn colon_pred() -> spec_fn(char) -> bool {
    |c: char| c == ':'
}

/// The repository component of an image reference: everything before the
/// first `:`, or the whole reference when it carries no tag.
pub open spec fn spec_repo_of(image: Seq<char>) -> Seq<char> {
    image.take(spec_first_where(image, colon_pred()))
}

/// The tag component of an image reference: everything after the first
/// `:`, or `latest` when the reference carries no tag.
pub open spec fn spec_tag_of(image: Seq<char>) -> Seq<char> {
    let k = spec_first_where(image, colon_pred());
    if k == image.len() {
        "latest"@
    } else {
        image.skip(k + 1)
    }
}

/// Splits an image reference into repository and tag, the tag defaulting
/// to `latest` when the reference names none.
pub fn split_image_ref(image: &str) -> (r: (String, String))
    ensures
        r.0@ == spec_repo_of(image@),
        r.1@ == spec_tag_of(image@),
{
    let n = image.unicode_len();
    let mut k: usize = 0;
    while k < n && image.get_char(k) != ':'
        invariant
            n == image@.len(),
            k <= n,
            forall|j: int| 0 <= j < k ==> image@[j] != ':',
        decreases n - k,
    {
        k = k + 1;
    }
    proof {
        lemma_first_where_is(image@, colon_pred(), k as int);
    }
    let repo = image.substring_char(0, k).to_owned();
    proof {
        assert(image@.subrange(0, k as int) =~= image@.take(k as int));
    }
    if k == n {
        (repo, String::from_str("latest"))
    } else {
        let tag = image.substring_char(k + 1, n).to_owned();
        proof {
            assert(image@.subrange(k as int + 1, n as int) =~= image@.skip(k as int + 1));
        }
        (repo, tag)
    }
}

// ---------------------------------------------------------------------
// Decoding the engine's image listing
// ---------------------------------------------------------------------

/// Field separators in the engine's tabular listing.
pub open spec fn spec_is_space(c: char) -> bool {
    c == ' ' || c == '\t' || c == '\r'
}

pub open spec fn space_pred() -> spec_fn(char) -> bool {
    |c: char| spec_is_space(c)
}

pub open spec fn newline_pred() -> spec_fn(char) -> bool {
    |c: char| c == '\n'
}

/// The lines of a text, split at `\n`; the final line needs no trailing
/// newline, and an empty text has no lines.
pub open spec fn spec_lines_of(text: Seq<char>) -> Seq<Seq<char>>
    decreases text.len(),
    via spec_lines_of_decreases
{
    if text.len() == 0 {
        seq![]
    } else {
        let k = spec_first_where(text, newline_pred());
        if k == text.len() {
            seq![text]
        } else {
            seq![text.take(k)] + spec_lines_of(text.skip(k + 1))
        }
    }
}

#[via_fn]
proof fn spec_lines_of_decreases(text: Seq<char>) {
    if text.len() != 0 {
        lemma_first_where_bounds(text, newline_pred());
    }
}

/// The whitespace-separated fields of a line, in order.
pub open spec fn spec_fields_of(line: Seq<char>) -> Seq<Seq<char>>
    decreases line.len(),
    via spec_fields_of_decreases
{
    if line.len() == 0 {
        seq![]
    } else if spec_is_space(line[0]) {
        spec_fields_of(line.skip(1))
    } else {
        let k = spec_first_where(line, space_pred());
        seq![line.take(k)] + spec_fields_of(line.skip(k))
    }
}

#[via_fn]
proof fn spec_fields_of_decreases(line: Seq<char>) {
    if line.len() != 0 && !spec_is_space(line[0]) {
        lemma_first_where_bounds(line, space_pred());
        assert(spec_first_where(line, space_pred()) != 0);
    }
}

/// The listing's header line, which is no inventory entry.
pub open spec fn spec_line_is_header(line: Seq<char>) -> bool {
    "REPOSITORY"@.is_prefix_of(line)
}

/// The inventory entry one listing line describes: its first field is the
/// repository and its second the tag. The header line, and any line with
/// fewer than two fields, describes none.
pub open spec fn spec_entry_of_line(line: Seq<char>) -> Option<LocalImageModel> {
    let fs = spec_fields_of(line);
    if spec_line_is_header(line) || fs.len() < 2 {
        None
    } else {
        Some(LocalImageModel { repository: fs[0], tag: fs[1] })
    }
}

pub open spec fn spec_entries_of(lines: Seq<Seq<char>>) -> Seq<LocalImageModel>
    decreases lines.len(),
{
    if lines.len() == 0 {
        seq![]
    } else {
        match spec_entry_of_line(lines[0]) {
            Some(e) => seq![e] + spec_entries_of(lines.skip(1)),
            None => spec_entries_of(lines.skip(1)),
        }
    }
}

/// The local image inventory a tabular listing describes, line by line.
pub open spec fn spec_parse_listing(text: Seq<char>) -> Seq<LocalImageModel> {
    spec_entries_of(spec_lines_of(text))
}

fn is_space_char(c: char) -> (r: bool)
    ensures
        r == spec_is_space(c),
{
    c == ' ' || c == '\t' || c == '\r'
}

/// Splits a text into its lines.
fn parse_lines(text: &str) -> (r: Vec<String>)
    ensures
        r.deep_view() == spec_lines_of(text@),
    decreases text@.len(),
{
    let n = text.unicode_len();
    let mut result: Vec<String> = Vec::new();
    if n == 0 {
        proof {
            assert(result.deep_view() =~= spec_lines_of(text@));
        }
        return result;
    }
    let mut k: usize = 0;
    while k < n && text.get_char(k) != '\n'
        invariant
            n == text@.len(),
            k <= n,
            forall|j: int| 0 <= j < k ==> text@[j] != '\n',
        decreases n - k,
    {
        k = k + 1;
    }
    proof {
        lemma_first_where_is(text@, newline_pred(), k as int);
    }
    if k == n {
        result.push(text.to_owned());
        proof {
            assert(result.deep_view() =~= spec_lines_of(text@));
        }
        result
    } else {
        let head = text.substring_char(0, k).to_owned();
        let rest = text.substring_char(k + 1, n);
        proof {
            assert(head@ == text@.take(k as int));
            assert(rest@ =~= text@.skip(k as int + 1));
        }
        result.push(head);
        let mut tail = parse_lines(rest);
        result.append(&mut tail);
        proof {
            assert(result.deep_view() =~= spec_lines_of(text@));
        }
        result
    }
}

/// Splits a line into its whitespace-separated fields.
fn parse_fields(line: &str) -> (r: Vec<String>)
    ensures
        r.deep_view() == spec_fields_of(line@),
    decreases line@.len(),
{
    let n = line.unicode_len();
    let mut result: Vec<String> = Vec::new();
    if n == 0 {
        proof {
            assert(result.deep_view() =~= spec_fields_of(line@));
        }
        return result;
    }
    if is_space_char(line.get_char(0)) {
        let rest = line.substring_char(1, n);
        proof {
            assert(rest@ =~= line@.skip(1));
        }
        let r = parse_fields(rest);
        return r;
    }
    let mut k: usize = 0;
    while k < n && !is_space_char(line.get_char(k))
        invariant
            n == line@.len(),
            k <= n,
            forall|j: int| 0 <= j < k ==> !spec_is_space(line@[j]),
        decreases n - k,
    {
        k = k + 1;
    }
    proof {
        lemma_first_where_is(line@, space_pred(), k as int);
        assert(k >= 1);
    }
    let token = line.substring_char(0, k).to_owned();
    let rest = line.substring_char(k, n);
    proof {
        assert(token@ == line@.take(k as int));
        assert(rest@ =~= line@.skip(k as int));
    }
    result.push(token);
    let mut tail = parse_fields(rest);
    result.append(&mut tail);
    proof {
        assert(result.deep_view() =~= spec_fields_of(line@));
    }
    result
}

/// Decodes the engine's tabular image listing into inventory entries:
/// one entry per line with at least two fields, the header line skipped.
pub fn parse_image_listing(text: &str) -> (r: Vec<LocalImage>)
    ensures
        r.deep_view() == spec_parse_listing(text@),
{
    let lines = parse_lines(text);
    let ghost lv = lines.deep_view();
    let mut entries: Vec<LocalImage> = Vec::new();
    proof {
        assert(lv.skip(0) =~= lv);
    }
    let mut i: usize = 0;
    while i < lines.len()
        invariant
            i <= lines.len(),
            lv == lines.deep_view(),
            entries.deep_view() + spec_entries_of(lv.skip(i as int)) == spec_entries_of(lv),
        decreases lines.len() - i,
    {
        let ghost pre = entries.deep_view();
        assert(lv.skip(i as int)[0] == lv[i as int]);
        let line = &lines[i];
        let fields = parse_fields(line.as_str());
        if !str_starts_with(line.as_str(), "REPOSITORY") && fields.len() >= 2 {
            let entry = LocalImage { repository: fields[0].clone(), tag: fields[1].clone() };
            proof {
                assert(entry@ == spec_entry_of_line(lv[i as int]) -> Some_0);
            }
            entries.push(entry);
            proof {
                assert(entries.deep_view() =~= pre.push(
                    spec_entry_of_line(lv[i as int]) -> Some_0,
                ));
            }
        } else {
            assert(spec_entry_of_line(lv[i as int]) is None);
        }
        proof {
            assert(lv.skip(i as int).skip(1) =~= lv.skip(i as int + 1));
            assert(entries.deep_view() + spec_entries_of(lv.skip(i as int + 1)) =~= spec_entries_of(
                lv,
            ));
        }
        i = i + 1;
    }
    proof {
        assert(lv.skip(i as int).len() == 0);
        assert(entries.deep_view() =~= spec_entries_of(lv));
    }
    entries
}

// ---------------------------------------------------------------------
// Presence check
// ---------------------------------------------------------------------

/// Whether the inventory holds an entry whose repository and tag equal
/// the reference's components (tag defaulting to `latest`).
pub open spec fn spec_image_present(inventory: Seq<LocalImageModel>, image: Seq<char>) -> bool {
    exists|i: int|
        0 <= i < inventory.len() && inventory[i].repository == spec_repo_of(image)
            && inventory[i].tag == spec_tag_of(image)
}

/// Checks the local inventory for the image reference. When this returns
/// true, no pull is needed (and the provisioner performs none).
pub fn image_present(inventory: &Vec<LocalImage>, image: &str) -> (r: bool)
    ensures
        r == spec_image_present(inventory.deep_view(), image@),
{
    let (repo, tag) = split_image_ref(image);
    let mut i: usize = 0;
    while i < inventory.len()
        invariant
            i <= inventory.len(),
            repo@ == spec_repo_of(image@),
            tag@ == spec_tag_of(image@),
            forall|k: int|
                0 <= k < i ==> !(inventory.deep_view()[k].repository == spec_repo_of(image@)
                    && inventory.deep_view()[k].tag == spec_tag_of(image@)),
        decreases inventory.len() - i,
    {
        if inventory[i].repository == repo && inventory[i].tag == tag {
            assert(inventory.deep_view()[i as int].repository == spec_repo_of(image@));
            return true;
        }
        i = i + 1;
    }
    false
}

} // verus!
