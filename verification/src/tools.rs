//! Where the outside programs are looked for, and what is read from their output.
//!
//! A search is a list of candidates in order. Whether each of them is a file is asked outside,
//! and handed back as one `bool` per candidate.

use crate::paths;
use crate::text;
use vstd::prelude::*;

verus! {

/// The name of a tool's executable file.
pub open spec fn executable_name(tool: Seq<char>, windows: bool) -> Seq<char> {
    if windows {
        tool + ".exe"@
    } else {
        tool
    }
}

/// Names the executable file of a tool.
pub fn exe_name(tool: &str, windows: bool) -> (name: String)
    ensures
        name@ == executable_name(tool@, windows),
        windows ==> name@ == tool@ + ".exe"@,
        !windows ==> name@ == tool@,
{
    let mut name = tool.to_owned();
    if windows {
        name.append(".exe");
    }
    name
}

/// The paths of one file name inside each of a list of directories.
pub open spec fn inside_each(dirs: Seq<Seq<char>>, name: Seq<char>) -> Seq<Seq<char>> {
    Seq::new(dirs.len(), |i: int| paths::joined_path(dirs[i], name))
}

/// Appends the paths of one file name inside each of a list of directories.
fn push_inside_each(list: &mut Vec<String>, dirs: &Vec<String>, name: &str)
    ensures
        text::texts(final(list)@) == text::texts(old(list)@) + inside_each(
            text::texts(dirs@),
            name@,
        ),
{
    let ghost all = inside_each(text::texts(dirs@), name@);
    let mut at: usize = 0;
    assert(all.take(0) =~= Seq::empty());
    assert(text::texts(list@) + all.take(0) =~= text::texts(list@));
    while at < dirs.len()
        invariant
            at <= dirs.len(),
            all == inside_each(text::texts(dirs@), name@),
            text::texts(list@) == text::texts(old(list)@) + all.take(at as int),
        decreases dirs.len() - at,
    {
        let path = paths::join_path(dirs[at].as_str(), name);
        text::push_text(list, path.as_str());
        assert(all.take(at as int).push(all[at as int]) =~= all.take(at + 1));
        assert(text::texts(list@) =~= text::texts(old(list)@) + all.take(at + 1));
        at = at + 1;
    }
    assert(all.take(at as int) =~= all);
}

/// The first of a list of candidates that is a file, going by one answer per candidate. A
/// candidate without an answer is no file.
pub open spec fn first_found(candidates: Seq<Seq<char>>, answers: Seq<bool>) -> Option<Seq<char>>
    decreases candidates.len(),
{
    if candidates.len() == 0 || answers.len() == 0 {
        None
    } else if answers[0] {
        Some(candidates[0])
    } else {
        first_found(candidates.drop_first(), answers.drop_first())
    }
}

/// Finds the first candidate that is a file.
pub fn first_file(candidates: &Vec<String>, answers: &Vec<bool>) -> (found: Option<String>)
    ensures
        text::optional_text(found) == first_found(text::texts(candidates@), answers@),
{
    let ghost all = text::texts(candidates@);
    let mut at: usize = 0;
    assert(all.skip(0) =~= all);
    assert(answers@.skip(0) =~= answers@);
    while at < candidates.len() && at < answers.len()
        invariant
            at <= candidates.len(),
            at <= answers.len(),
            all == text::texts(candidates@),
            first_found(all, answers@) == first_found(
                all.skip(at as int),
                answers@.skip(at as int),
            ),
        decreases candidates.len() - at,
    {
        if answers[at] {
            return Some(candidates[at].clone());
        }
        assert(all.skip(at as int).drop_first() =~= all.skip(at + 1));
        assert(answers@.skip(at as int).drop_first() =~= answers@.skip(at + 1));
        at = at + 1;
    }
    None
}

/// Finds a file on the search path. An answer is given for its path in each directory.
pub fn find_in_path(name: &str, search_dirs: &Vec<String>, answers: &Vec<bool>) -> (found: Option<
    String,
>)
    ensures
        text::optional_text(found) == first_found(
            inside_each(text::texts(search_dirs@), name@),
            answers@,
        ),
{
    let mut candidates: Vec<String> = Vec::new();
    push_inside_each(&mut candidates, search_dirs, name);
    assert(text::texts(candidates@) =~= inside_each(text::texts(search_dirs@), name@));
    first_file(&candidates, answers)
}

/// Where a tool is looked for, in order: at the configured path, inside it where it is a
/// directory, in the program's directory, in `bin` below that, and on the search path.
pub open spec fn tool_places(
    exe_dir: Seq<char>,
    configured: Seq<char>,
    name: Seq<char>,
    search_dirs: Seq<Seq<char>>,
) -> Seq<Seq<char>> {
    let given = paths::resolved_path(exe_dir, configured);
    let beside = seq![
        paths::joined_path(exe_dir, name),
        paths::joined_path(paths::joined_path(exe_dir, "bin"@), name),
    ];
    let near = if text::is_blank(configured) {
        beside
    } else {
        seq![given, paths::joined_path(given, name)] + beside
    };
    near + inside_each(search_dirs, name)
}

/// Lists where a tool is looked for.
pub fn tool_candidates(
    exe_dir: &str,
    configured: &str,
    tool_name: &str,
    windows: bool,
    search_dirs: &Vec<String>,
) -> (candidates: Vec<String>)
    ensures
        text::texts(candidates@) == tool_places(
            exe_dir@,
            configured@,
            executable_name(tool_name@, windows),
            text::texts(search_dirs@),
        ),
{
    let name = exe_name(tool_name, windows);
    let mut candidates: Vec<String> = Vec::new();
    assert(text::texts(candidates@) =~= Seq::empty());
    if !text::blank(configured) {
        let given = paths::resolve_path(exe_dir, configured);
        text::push_text(&mut candidates, given.as_str());
        text::push_text(
            &mut candidates,
            paths::join_path(given.as_str(), name.as_str()).as_str(),
        );
    }
    text::push_text(&mut candidates, paths::join_path(exe_dir, name.as_str()).as_str());
    let bin = paths::join_path(exe_dir, "bin");
    text::push_text(&mut candidates, paths::join_path(bin.as_str(), name.as_str()).as_str());
    let ghost near = text::texts(candidates@);
    push_inside_each(&mut candidates, search_dirs, name.as_str());
    assert(text::texts(candidates@) =~= tool_places(
        exe_dir@,
        configured@,
        name@,
        text::texts(search_dirs@),
    ));
    candidates
}

/// The path that a tool is run by: the first place in which it is a file, or the first place of
/// all where it is in none.
pub open spec fn tool_path(places: Seq<Seq<char>>, answers: Seq<bool>) -> Seq<char> {
    match first_found(places, answers) {
        Some(found) => found,
        None => places[0],
    }
}

/// Decides by which path a tool is run. Where it is found nowhere, that is the configured path,
/// so that a message can show it.
pub fn resolve_tool(
    exe_dir: &str,
    configured: &str,
    tool_name: &str,
    windows: bool,
    search_dirs: &Vec<String>,
    answers: &Vec<bool>,
) -> (path: String)
    ensures
        path@ == tool_path(
            tool_places(
                exe_dir@,
                configured@,
                executable_name(tool_name@, windows),
                text::texts(search_dirs@),
            ),
            answers@,
        ),
{
    let candidates = tool_candidates(exe_dir, configured, tool_name, windows, search_dirs);
    assert(text::texts(candidates@).len() == candidates@.len());
    match first_file(&candidates, answers) {
        Some(found) => found,
        None => candidates[0].clone(),
    }
}

/// Where a tool that was decided on is looked for once more: at its path, and under its file
/// name on the search path.
pub open spec fn check_places(path: Seq<char>, search_dirs: Seq<Seq<char>>) -> Seq<Seq<char>> {
    match paths::last_component(path) {
        Some(name) => seq![path] + inside_each(search_dirs, name),
        None => seq![path],
    }
}

/// Lists where a tool that was decided on is looked for once more.
pub fn check_candidates(path: &str, search_dirs: &Vec<String>) -> (candidates: Vec<String>)
    ensures
        text::texts(candidates@) == check_places(path@, text::texts(search_dirs@)),
{
    let mut candidates: Vec<String> = Vec::new();
    assert(text::texts(candidates@) =~= Seq::empty());
    text::push_text(&mut candidates, path);
    match paths::file_name(path) {
        Some(name) => {
            push_inside_each(&mut candidates, search_dirs, name.as_str());
        },
        None => {},
    }
    candidates
}

/// Decides whether a tool can be run: some place in which it is looked for is a file.
pub fn exe_exists(path: &str, search_dirs: &Vec<String>, answers: &Vec<bool>) -> (exists: bool)
    ensures
        exists == (first_found(check_places(path@, text::texts(search_dirs@)), answers@) is Some),
        exists == exists|i: int|
            {
                &&& 0 <= i < answers@.len()
                &&& #[trigger] answers@[i]
                &&& i == 0 || i <= search_dirs@.len() && paths::last_component(path@) is Some
            },
{
    proof {
        law_a_tool_exists_where_a_place_is_a_file(path@, text::texts(search_dirs@), answers@);
    }
    let candidates = check_candidates(path, search_dirs);
    first_file(&candidates, answers).is_some()
}

/// Bytes read as text: what `String::from_utf8_lossy` gives.
pub uninterp spec fn lossy_text(bytes: Seq<u8>) -> Seq<char>;

/// Calls `String::from_utf8_lossy`.
///
/// Claimed of it: the result depends on the bytes alone, and is their decoding where they are
/// valid UTF-8.
#[verifier::external_body]
pub(crate) fn decode_lossy(bytes: &Vec<u8>) -> (decoded: String)
    ensures
        decoded@ == lossy_text(bytes@),
        vstd::utf8::valid_utf8(bytes@) ==> decoded@ == vstd::utf8::decode_utf8(bytes@),
{
    String::from_utf8_lossy(bytes).into_owned()
}

/// The version line of a tool, read from what it printed: `None` where it could not be run or
/// printed nothing.
pub open spec fn version_line(output: Option<Seq<u8>>) -> Option<Seq<char>> {
    match output {
        Some(bytes) => text::head_line(lossy_text(bytes)),
        None => None,
    }
}

/// Reads the version of `ffmpeg` from what it printed.
pub fn ffmpeg_version(output: &Option<Vec<u8>>) -> (version: Option<String>)
    ensures
        text::optional_text(version) == version_line(
            match *output {
                Some(bytes) => Some(bytes@),
                None => None,
            },
        ),
        *output matches Some(bytes) ==> (vstd::utf8::valid_utf8(bytes@) ==> text::optional_text(
            version,
        ) == text::head_line(vstd::utf8::decode_utf8(bytes@))),
{
    match output {
        Some(bytes) => text::first_line(decode_lossy(bytes).as_str()),
        None => None,
    }
}

/// The frame rate that a probe printed: its output without the white space around it.
pub open spec fn printed_rate(output: Seq<u8>) -> Seq<char> {
    text::stripped(lossy_text(output), text::Strip::Space)
}

/// Reads the frame rate that a probe printed.
pub fn frame_rate(output: &Vec<u8>) -> (rate: String)
    ensures
        rate@ == printed_rate(output@),
        vstd::utf8::valid_utf8(output@) ==> rate@ == text::stripped(
            vstd::utf8::decode_utf8(output@),
            text::Strip::Space,
        ),
{
    let decoded = decode_lossy(output);
    text::strip_ends(decoded.as_str(), text::Strip::Space).to_owned()
}

/// One entry of a directory.
#[derive(Clone, Copy, Debug, PartialEq, Eq, Structural)]
pub enum Entry {
    /// A file.
    File,
    /// Anything else.
    Other,
    /// An entry that could not be read.
    Unreadable,
}

/// What a directory holds.
#[derive(Clone, Debug)]
pub enum Listing {
    /// There is no such directory.
    Missing,
    /// It could not be read.
    Unreadable,
    /// Its entries.
    Entries(Vec<Entry>),
}

/// How many files a directory holds. One that is missing or cannot be read holds none.
pub open spec fn file_count(listing: Listing) -> nat {
    match listing {
        Listing::Entries(entries) => entries@.filter(|entry: Entry| entry == Entry::File).len(),
        _ => 0,
    }
}

/// Counts the files in a directory.
pub fn count_files_in_dir(listing: &Listing) -> (count: usize)
    ensures
        count == file_count(*listing),
        listing matches Listing::Entries(entries) ==> {
            &&& count <= entries@.len()
            &&& (forall|i: int| 0 <= i < entries@.len() ==> #[trigger] entries@[i] == Entry::File)
                ==> count == entries@.len()
            &&& (forall|i: int| 0 <= i < entries@.len() ==> #[trigger] entries@[i] != Entry::File)
                ==> count == 0
        },
        listing !is Entries ==> count == 0,
{
    match listing {
        Listing::Entries(entries) => {
            let ghost is_file = |entry: Entry| entry == Entry::File;
            let mut count: usize = 0;
            let mut at: usize = 0;
            proof {
                reveal(Seq::filter);
            }
            assert(entries@.take(0) =~= Seq::empty());
            while at < entries.len()
                invariant
                    at <= entries.len(),
                    count <= at,
                    (forall|i: int| 0 <= i < at ==> #[trigger] entries@[i] == Entry::File) ==> count
                        == at,
                    (forall|i: int| 0 <= i < at ==> #[trigger] entries@[i] != Entry::File) ==> count
                        == 0,
                    is_file == (|entry: Entry| entry == Entry::File),
                    count == entries@.take(at as int).filter(is_file).len(),
                decreases entries.len() - at,
            {
                proof {
                    reveal(Seq::filter);
                    assert(entries@.take(at + 1).drop_last() =~= entries@.take(at as int));
                }
                if entries[at] == Entry::File {
                    count = count + 1;
                }
                at = at + 1;
            }
            assert(entries@.take(at as int) =~= entries@);
            count
        },
        _ => 0,
    }
}

/// A search gives the first candidate that is a file, whatever comes after it.
pub proof fn law_first_file_wins(candidates: Seq<Seq<char>>, answers: Seq<bool>, i: int)
    requires
        0 <= i < candidates.len(),
        i < answers.len(),
        answers[i],
        forall|j: int| 0 <= j < i ==> !answers[j],
    ensures
        first_found(candidates, answers) == Some(candidates[i]),
    decreases i,
{
    if i > 0 {
        law_first_file_wins(candidates.drop_first(), answers.drop_first(), i - 1);
    }
}

/// A search among candidates of which none is a file finds nothing.
pub proof fn law_no_file_is_no_find(candidates: Seq<Seq<char>>, answers: Seq<bool>)
    requires
        forall|j: int| 0 <= j < answers.len() && j < candidates.len() ==> !answers[j],
    ensures
        first_found(candidates, answers) is None,
    decreases candidates.len(),
{
    if candidates.len() > 0 && answers.len() > 0 {
        law_no_file_is_no_find(candidates.drop_first(), answers.drop_first());
    }
}

/// A configured tool is looked for at its path and inside it, then in the program's directory,
/// in `bin` below that, and on the search path, in this order.
pub proof fn law_search_order(
    exe_dir: Seq<char>,
    configured: Seq<char>,
    name: Seq<char>,
    search_dirs: Seq<Seq<char>>,
)
    requires
        !text::is_blank(configured),
    ensures
        ({
            let places = tool_places(exe_dir, configured, name, search_dirs);
            let given = paths::resolved_path(exe_dir, configured);
            &&& places.len() == 4 + search_dirs.len()
            &&& places[0] == given
            &&& places[1] == paths::joined_path(given, name)
            &&& places[2] == paths::joined_path(exe_dir, name)
            &&& places[3] == paths::joined_path(paths::joined_path(exe_dir, "bin"@), name)
            &&& forall|i: int|
                0 <= i < search_dirs.len() ==> places[4 + i] == paths::joined_path(
                    #[trigger] search_dirs[i],
                    name,
                )
        }),
{
}

/// A tool that is found nowhere is shown under its configured path, or under its name in the
/// program's directory where none is configured.
pub proof fn law_unfound_tool_is_shown_as_configured(
    exe_dir: Seq<char>,
    configured: Seq<char>,
    name: Seq<char>,
    search_dirs: Seq<Seq<char>>,
    answers: Seq<bool>,
)
    requires
        forall|j: int| 0 <= j < answers.len() ==> !answers[j],
    ensures
        tool_path(tool_places(exe_dir, configured, name, search_dirs), answers)
            == if text::is_blank(configured) {
            paths::joined_path(exe_dir, name)
        } else {
            paths::resolved_path(exe_dir, configured)
        },
{
    law_no_file_is_no_find(tool_places(exe_dir, configured, name, search_dirs), answers);
}

/// An executable file is named after its tool, with an extension on Windows alone.
pub proof fn law_executables_are_named_after_their_tools(tool: Seq<char>)
    ensures
        executable_name(tool, false) == tool,
        executable_name(tool, true) == tool + ".exe"@,
{
}

/// A file is looked for in each of the directories, in their order.
pub proof fn law_a_file_is_looked_for_in_every_directory(dirs: Seq<Seq<char>>, name: Seq<char>)
    ensures
        inside_each(dirs, name).len() == dirs.len(),
        forall|i: int|
            0 <= i < dirs.len() ==> inside_each(dirs, name)[i] == paths::joined_path(
                #[trigger] dirs[i],
                name,
            ),
{
}

/// A tool that is not configured is looked for in the program's directory, in `bin` below that,
/// and on the search path, in this order.
pub proof fn law_search_order_without_configuration(
    exe_dir: Seq<char>,
    configured: Seq<char>,
    name: Seq<char>,
    search_dirs: Seq<Seq<char>>,
)
    requires
        forall|i: int| 0 <= i < configured.len() ==> text::is_space(#[trigger] configured[i]),
    ensures
        ({
            let places = tool_places(exe_dir, configured, name, search_dirs);
            &&& places.len() == 2 + search_dirs.len()
            &&& places[0] == paths::joined_path(exe_dir, name)
            &&& places[1] == paths::joined_path(paths::joined_path(exe_dir, "bin"@), name)
            &&& forall|i: int|
                0 <= i < search_dirs.len() ==> places[2 + i] == paths::joined_path(
                    #[trigger] search_dirs[i],
                    name,
                )
        }),
{
}

/// A tool with anything but white space configured for it is looked for there first, and inside
/// of that, before the program's directory, `bin` below that, and the search path.
pub proof fn law_search_order_with_configuration(
    exe_dir: Seq<char>,
    configured: Seq<char>,
    name: Seq<char>,
    search_dirs: Seq<Seq<char>>,
    at: int,
)
    requires
        0 <= at < configured.len(),
        !text::is_space(configured[at]),
    ensures
        ({
            let places = tool_places(exe_dir, configured, name, search_dirs);
            let given = paths::resolved_path(exe_dir, configured);
            &&& places.len() == 4 + search_dirs.len()
            &&& places[0] == given
            &&& places[1] == paths::joined_path(given, name)
            &&& places[2] == paths::joined_path(exe_dir, name)
            &&& places[3] == paths::joined_path(paths::joined_path(exe_dir, "bin"@), name)
            &&& forall|i: int|
                0 <= i < search_dirs.len() ==> places[4 + i] == paths::joined_path(
                    #[trigger] search_dirs[i],
                    name,
                )
        }),
{
    law_search_order(exe_dir, configured, name, search_dirs);
}

/// A tool is run by the first of its places that is a file, and by the first of all where none
/// is.
pub proof fn law_a_tool_is_run_by_its_first_place(
    places: Seq<Seq<char>>,
    answers: Seq<bool>,
    i: int,
)
    requires
        0 <= i <= places.len(),
        i <= answers.len(),
        forall|j: int| 0 <= j < i ==> !answers[j],
    ensures
        i < places.len() && i < answers.len() && answers[i] ==> tool_path(places, answers)
            == places[i],
        i == places.len() || i == answers.len() ==> tool_path(places, answers) == places[0],
{
    if i < places.len() && i < answers.len() && answers[i] {
        law_first_file_wins(places, answers, i);
    } else if i == places.len() || i == answers.len() {
        law_no_file_is_no_find(places, answers);
    }
}

/// A tool that was decided on is looked for at its path, and under the last component of that in
/// each directory of the search path.
pub proof fn law_a_tool_is_looked_for_once_more(path: Seq<char>, search_dirs: Seq<Seq<char>>)
    ensures
        check_places(path, search_dirs)[0] == path,
        paths::last_component(path) is None ==> check_places(path, search_dirs).len() == 1,
        paths::last_component(path) matches Some(name) ==> {
            &&& check_places(path, search_dirs).len() == 1 + search_dirs.len()
            &&& forall|i: int|
                0 <= i < search_dirs.len() ==> check_places(path, search_dirs)[1 + i]
                    == paths::joined_path(#[trigger] search_dirs[i], name)
        },
{
}

/// A tool can be run where one of the places in which it is looked for once more is a file, and
/// only there.
pub proof fn law_a_tool_exists_where_a_place_is_a_file(
    path: Seq<char>,
    search_dirs: Seq<Seq<char>>,
    answers: Seq<bool>,
)
    ensures
        first_found(check_places(path, search_dirs), answers) is Some <==> exists|i: int|
            {
                &&& 0 <= i < answers.len()
                &&& #[trigger] answers[i]
                &&& i == 0 || i <= search_dirs.len() && paths::last_component(path) is Some
            },
{
    law_a_tool_is_looked_for_once_more(path, search_dirs);
    lemma_found_where_true(check_places(path, search_dirs), answers);
}

proof fn lemma_found_where_true(candidates: Seq<Seq<char>>, answers: Seq<bool>)
    ensures
        first_found(candidates, answers) is Some <==> exists|i: int|
            0 <= i < answers.len() && i < candidates.len() && #[trigger] answers[i],
    decreases candidates.len(),
{
    if candidates.len() > 0 && answers.len() > 0 && !answers[0] {
        let (rest, others) = (candidates.drop_first(), answers.drop_first());
        lemma_found_where_true(rest, others);
        if exists|i: int| 0 <= i < answers.len() && i < candidates.len() && #[trigger] answers[i] {
            let i = choose|i: int|
                0 <= i < answers.len() && i < candidates.len() && #[trigger] answers[i];
            assert(others[i - 1]);
        }
        if exists|i: int| 0 <= i < others.len() && i < rest.len() && #[trigger] others[i] {
            let i = choose|i: int| 0 <= i < others.len() && i < rest.len() && #[trigger] others[i];
            assert(answers[i + 1]);
        }
    }
}

/// What is printed is read as text: the version is its first line, and the frame rate is what
/// stands in it between white space.
pub proof fn law_output_is_read_as_text(
    output: Seq<u8>,
    line: Seq<char>,
    rest: Seq<char>,
    before: Seq<char>,
    rate: Seq<char>,
    after: Seq<char>,
)
    ensures
        version_line(None) is None,
        lossy_text(output).len() == 0 ==> version_line(Some(output)) is None,
        !line.contains('\n') && line.len() > 0 && lossy_text(output) == line ==> version_line(
            Some(output),
        ) == Some(line),
        !line.contains('\n') && lossy_text(output) == line + seq!['\n'] + rest ==> version_line(
            Some(output),
        ) == Some(
            if line.len() > 0 && line.last() == '\r' {
                line.drop_last()
            } else {
                line
            },
        ),
        ({
            &&& lossy_text(output) == before + rate + after
            &&& forall|i: int| 0 <= i < before.len() ==> text::is_space(#[trigger] before[i])
            &&& forall|i: int| 0 <= i < after.len() ==> text::is_space(#[trigger] after[i])
            &&& rate.len() > 0 ==> !text::is_space(rate[0]) && !text::is_space(rate.last())
        }) ==> printed_rate(output) == rate,
{
    if !line.contains('\n') {
        text::law_first_line_stands_before_the_line_feed(line, rest);
    }
    if (forall|i: int| 0 <= i < before.len() ==> text::is_space(#[trigger] before[i])) && (forall|
        i: int,
    |
        0 <= i < after.len() ==> text::is_space(#[trigger] after[i])) && (rate.len() > 0
        ==> !text::is_space(rate[0]) && !text::is_space(rate.last())) {
        text::law_stripping_leaves_what_stands_between(before, rate, after, text::Strip::Space);
    }
}

/// One more file in a directory counts for one, anything else for nothing. An empty directory, a
/// missing one and one that cannot be read hold no files.
pub proof fn law_every_file_counts_for_one(entries: Vec<Entry>, more: Vec<Entry>, entry: Entry)
    ensures
        entries@.len() == 0 ==> file_count(Listing::Entries(entries)) == 0,
        more@ == entries@.push(entry) ==> file_count(Listing::Entries(more)) == file_count(
            Listing::Entries(entries),
        ) + if entry == Entry::File {
            1nat
        } else {
            0nat
        },
        file_count(Listing::Missing) == 0,
        file_count(Listing::Unreadable) == 0,
{
    reveal(Seq::filter);
    assert(entries@.push(entry).drop_last() =~= entries@);
}

/// No directory holds more files than entries.
pub proof fn law_files_are_entries(entries: Vec<Entry>)
    ensures
        file_count(Listing::Entries(entries)) <= entries@.len(),
        file_count(Listing::Entries(entries)) <= usize::MAX,
{
    lemma_filter_len(entries@);
    assert(entries.len() == entries@.len());
}

proof fn lemma_filter_len(entries: Seq<Entry>)
    ensures
        entries.filter(|entry: Entry| entry == Entry::File).len() <= entries.len(),
    decreases entries.len(),
{
    reveal(Seq::filter);
    if entries.len() > 0 {
        lemma_filter_len(entries.drop_last());
    }
}

} // verus!
