//! Paths as text, read by the rules of the system that the program is built for.
//!
//! What the standard library answers about a path differs between systems, but not between two
//! questions in one build: like the width of `usize`, it is fixed by the target that the program
//! is compiled for. The names below stand for its answers on that target.

use crate::text;
use vstd::prelude::*;

verus! {

/// A path followed from a base: what `Path::join` gives for the two.
pub uninterp spec fn joined_path(base: Seq<char>, path: Seq<char>) -> Seq<char>;

/// Whether a path is absolute: what `Path::is_absolute` answers.
pub uninterp spec fn is_absolute_path(path: Seq<char>) -> bool;

/// The last component of a path: what `Path::file_name` gives.
pub uninterp spec fn last_component(path: Seq<char>) -> Option<Seq<char>>;

/// The directory that a path lies in: what `Path::parent` gives.
pub uninterp spec fn parent_path(path: Seq<char>) -> Option<Seq<char>>;

/// Whether a text can only name something directly inside a directory: it holds neither a
/// separator nor the colon of a drive or scheme.
pub open spec fn is_bare(path: Seq<char>) -> bool {
    !path.contains('/') && !path.contains('\\') && !path.contains(':')
}

/// Whether a text begins as a root can: with a separator, or with the letter of a drive.
pub open spec fn begins_as_root(path: Seq<char>) -> bool {
    &&& path.len() > 0
    &&& (path[0] == '/' || path[0] == '\\' || 'a' <= path[0] <= 'z' || 'A' <= path[0] <= 'Z')
}

/// Whether a text begins as a drive is named: with a letter and a colon.
pub open spec fn names_drive(path: Seq<char>) -> bool {
    &&& path.len() > 1
    &&& ('a' <= path[0] <= 'z' || 'A' <= path[0] <= 'Z')
    &&& path[1] == ':'
}

/// Calls `std::path::Path::join`.
///
/// Claimed of it: the result depends on the two paths alone; an absolute path replaces the base;
/// an absolute base gives an absolute result, unless the path names a drive of its own, and one
/// by which the result is not absolute replaces any base; and a result that is absolute begins
/// with its root.
#[verifier::external_body]
pub(crate) fn join_path(base: &str, path: &str) -> (joined: String)
    ensures
        joined@ == joined_path(base@, path@),
        is_absolute_path(path@) ==> joined@ == path@,
        is_absolute_path(base@) && !names_drive(path@) ==> is_absolute_path(joined@),
        is_absolute_path(base@) && !is_absolute_path(joined@) ==> forall|other: Seq<char>| #[trigger]
            joined_path(other, path@) == path@,
        is_absolute_path(joined@) ==> begins_as_root(joined@),
{
    std::path::Path::new(base).join(path).to_string_lossy().into_owned()
}

/// Calls `std::path::Path::is_absolute`.
///
/// Claimed of it: the answer depends on the path alone; a path in which no root can stand, for
/// want of a separator or a colon, is not absolute; and one that is absolute begins with its
/// root, which is a separator or a drive.
#[verifier::external_body]
pub(crate) fn is_absolute(path: &str) -> (answer: bool)
    ensures
        answer == is_absolute_path(path@),
        answer ==> !is_bare(path@),
        answer ==> begins_as_root(path@),
{
    std::path::Path::new(path).is_absolute()
}

/// Calls `std::path::Path::file_name`.
///
/// Claimed of it: the result depends on the path alone.
#[verifier::external_body]
pub(crate) fn file_name(path: &str) -> (name: Option<String>)
    ensures
        text::optional_text(name) == last_component(path@),
{
    std::path::Path::new(path).file_name().map(|name| name.to_string_lossy().into_owned())
}

/// Calls `std::path::Path::parent`.
///
/// Claimed of it: the result depends on the path alone.
#[verifier::external_body]
pub(crate) fn parent(path: &str) -> (directory: Option<String>)
    ensures
        text::optional_text(directory) == parent_path(path@),
{
    std::path::Path::new(path).parent().map(|directory| directory.to_string_lossy().into_owned())
}

/// A path as given by a user, made absolute: the value without the white space and quotes
/// around it where that is absolute, and followed from a base directory where it is not.
pub open spec fn resolved_path(base: Seq<char>, path: Seq<char>) -> Seq<char> {
    let inner = text::cleaned(path);
    if is_absolute_path(inner) {
        inner
    } else {
        joined_path(base, inner)
    }
}

/// Chooses between a path as it was given and the same path followed from a base.
pub fn place(path: String, absolute: bool, joined: String) -> (chosen: String)
    ensures
        chosen@ == if absolute {
            path@
        } else {
            joined@
        },
{
    if absolute {
        path
    } else {
        joined
    }
}

/// Makes a path absolute: an absolute path is kept, a relative one is followed from `base`. A
/// path that was resolved from an absolute base, or that is absolute, is kept when it is resolved
/// again, from whatever base, unless it ends in white space or a quote.
pub fn resolve_path(base: &str, path: &str) -> (resolved: String)
    ensures
        resolved@ == resolved_path(base@, path@),
        is_absolute_path(text::cleaned(path@)) ==> resolved@ == text::cleaned(path@),
        !is_absolute_path(text::cleaned(path@)) ==> resolved@ == joined_path(
            base@,
            text::cleaned(path@),
        ),
        is_bare(text::cleaned(path@)) ==> resolved@ == joined_path(base@, text::cleaned(path@)),
        is_absolute_path(base@) && !names_drive(text::cleaned(path@)) ==> is_absolute_path(resolved@),
        (is_absolute_path(base@) || is_absolute_path(resolved@)) && !text::Strip::Around.takes(
            resolved@.last(),
        ) ==> forall|other: Seq<char>| #[trigger]
            resolved_path(other, resolved@) == resolved@,
{
    let inner = text::clean(path);
    let absolute = is_absolute(inner.as_str());
    let joined = join_path(base, inner.as_str());
    let resolved = place(inner, absolute, joined);
    proof {
        if (is_absolute_path(base@) || is_absolute_path(resolved@)) && !text::Strip::Around.takes(
            resolved@.last(),
        ) {
            if !is_absolute_path(resolved@) {
                assert(joined_path(base@, text::cleaned(path@)) == text::cleaned(path@));
            }
            text::law_clean_values_are_kept(resolved@);
        }
    }
    resolved
}

/// Where the last dot of a file name stands, or -1 where there is none.
pub open spec fn last_dot(name: Seq<char>) -> int
    decreases name.len(),
{
    if name.len() == 0 {
        -1
    } else if name.last() == '.' {
        name.len() - 1
    } else {
        last_dot(name.drop_last())
    }
}

/// A file name without its extension: what stands before the last dot, or the whole name where
/// there is no dot but at its start.
pub open spec fn stem_text(name: Seq<char>) -> Seq<char> {
    if last_dot(name) > 0 {
        name.take(last_dot(name))
    } else {
        name
    }
}

/// The name of the file that a path leads to, without its extension.
pub open spec fn path_stem(path: Seq<char>) -> Option<Seq<char>> {
    match last_component(path) {
        Some(name) => Some(stem_text(name)),
        None => None,
    }
}

/// Takes the extension off a file name.
pub fn stem(name: &str) -> (short: &str)
    ensures
        short@ == stem_text(name@),
{
    let len: usize = name.unicode_len();
    let mut end: usize = len;
    assert(name@.take(len as int) =~= name@);
    while end > 0 && name.get_char(end - 1) != '.'
        invariant
            end <= len,
            len == name@.len(),
            last_dot(name@) == last_dot(name@.take(end as int)),
        decreases end,
    {
        assert(name@.take(end as int).drop_last() =~= name@.take(end - 1));
        end = end - 1;
    }
    if end > 1 {
        assert(last_dot(name@) == end - 1);
        assert(name@.take(end - 1) =~= name@.subrange(0, end - 1));
        name.substring_char(0, end - 1)
    } else {
        assert(last_dot(name@) <= 0);
        name
    }
}

/// Finds the name of the file that a path leads to, without its extension.
pub fn file_stem(path: &str) -> (short: Option<String>)
    ensures
        text::optional_text(short) == path_stem(path@),
        short is Some <==> last_component(path@) is Some,
        short matches Some(short) ==> short@ == stem_text(last_component(path@)->0),
{
    match file_name(path) {
        Some(name) => Some(stem(name.as_str()).to_owned()),
        None => None,
    }
}

/// A path is resolved as a whole: one that is absolute without its wrapping is that, and any
/// other is followed from the base with nothing left out.
pub proof fn law_paths_are_resolved_as_a_whole(base: Seq<char>, path: Seq<char>)
    ensures
        is_absolute_path(text::cleaned(path)) ==> resolved_path(base, path) == text::cleaned(path),
        !is_absolute_path(text::cleaned(path)) ==> resolved_path(base, path) == joined_path(
            base,
            text::cleaned(path),
        ),
{
}

proof fn lemma_last_dot(name: Seq<char>, extension: Seq<char>)
    requires
        !extension.contains('.'),
    ensures
        last_dot(name + extension) == last_dot(name),
    decreases extension.len(),
{
    let whole = name + extension;
    if extension.len() > 0 {
        assert(whole.last() == extension.last());
        assert(extension.contains(extension.last()));
        assert(whole.drop_last() =~= name + extension.drop_last());
        assert forall|c: char| extension.drop_last().contains(c) implies extension.contains(c) by {
            let i = choose|i: int|
                0 <= i < extension.drop_last().len() && extension.drop_last()[i] == c;
            assert(extension[i] == c);
        }
        lemma_last_dot(name, extension.drop_last());
    } else {
        assert(whole =~= name);
    }
}

/// Taking off an extension undoes putting it on, whatever the extension and however long it is.
pub proof fn law_an_extension_is_taken_off(name: Seq<char>, extension: Seq<char>)
    requires
        name.len() > 0,
        !extension.contains('.'),
    ensures
        stem_text(name + seq!['.'] + extension) == name,
{
    let dotted = name + seq!['.'];
    lemma_last_dot(dotted, extension);
    assert((dotted + extension).take(name.len() as int) =~= name);
}

/// A name with no dot but at its start is kept as it is.
pub proof fn law_a_name_without_extension_is_kept(name: Seq<char>)
    requires
        forall|i: int| 0 < i < name.len() ==> name[i] != '.',
    ensures
        stem_text(name) == name,
{
    if name.len() > 0 {
        let rest = name.drop_first();
        assert forall|i: int| 0 <= i < rest.len() implies rest[i] != '.' by {
            assert(rest[i] == name[i + 1]);
        }
        lemma_last_dot(seq![name[0]], rest);
        assert(seq![name[0]] + rest =~= name);
        assert(seq![name[0]].drop_last() =~= Seq::<char>::empty());
        assert(last_dot(Seq::<char>::empty()) == -1);
    }
}

/// The stem of a path is its last component without the extension.
pub proof fn law_the_stem_is_that_of_the_last_component(path: Seq<char>)
    ensures
        path_stem(path) is Some <==> last_component(path) is Some,
        path_stem(path) matches Some(short) ==> short == stem_text(last_component(path)->0),
{
}

} // verus!
