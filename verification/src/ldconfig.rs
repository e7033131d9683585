//! The shared-library cache listing (`ldconfig -p`): from its text to the
//! path of each library that it names.

use crate::text::{all_within, cut, cuts, line_spans, lines, to_chars};
use regex::Regex;
use vstd::prelude::*;

verus! {

/// `regex::Regex`, a compiled regular expression. Nothing inside it is
/// visible here.
#[verifier::external_type_specification]
#[verifier::external_body]
pub struct ExRegex(regex::Regex);

/// The pattern that a compiled expression was made from: what
/// `Regex::as_str` returns for it.
pub uninterp spec fn regex_source(re: Regex) -> Seq<char>;

/// Whether a compiled expression was built as `Regex::new` builds one, with
/// no option set. An expression built with options keeps its pattern and
/// matches otherwise.
pub uninterp spec fn regex_is_plain(re: Regex) -> bool;

/// Whether `Regex::new` compiles `pattern`.
pub uninterp spec fn regex_accepts(pattern: Seq<char>) -> bool;

/// What `Regex::captures` finds for `pattern`, compiled with no option set,
/// in `haystack`: `None` where the pattern matches nowhere, else, for the leftmost match, the text under the
/// group named `first` and the text under the group named `second`, each
/// `None` where the pattern has no such group or the group took no part in the
/// match.
pub uninterp spec fn regex_captures(
    pattern: Seq<char>,
    haystack: Seq<char>,
    first: Seq<char>,
    second: Seq<char>,
) -> Option<(Option<Seq<char>>, Option<Seq<char>>)>;

/// `Regex::new`, without the reason where it refuses. It compiles a pattern or
/// refuses it, and which of the two depends on the pattern alone. The compiled
/// expression remembers the pattern and has no option set.
#[verifier::external_body]
fn compile(pattern: &str) -> (compiled: Option<Regex>)
    ensures
        compiled is Some <==> regex_accepts(pattern@),
        compiled matches Some(re) ==> regex_source(re) == pattern@ && regex_is_plain(re),
{
    Regex::new(pattern).ok()
}

/// `Regex::captures`, then `Captures::name` for each of two group names and
/// `Match::as_str` on what they give. For an expression that was built with
/// no option set, the result is a function of the pattern, the haystack and
/// the two names.
#[verifier::external_body]
fn captures_pair(re: &Regex, haystack: &str, first: &str, second: &str) -> (found: Option<
    (Option<String>, Option<String>),
>)
    requires
        regex_is_plain(*re),
    ensures
        found.deep_view() == regex_captures(regex_source(*re), haystack@, first@, second@),
{
    re.captures(haystack).map(
        |caps|
            (
                caps.name(first).map(|m| m.as_str().to_string()),
                caps.name(second).map(|m| m.as_str().to_string()),
            ),
    )
}

/// The shape of a line that names a library: from the start of the line,
/// whitespace, the library's name, a description in round brackets, an arrow,
/// and the library's absolute path up to the end of the line.
pub const LINE_PATTERN: &'static str =
    r"^\s+(?P<name>[\w.\-]+)\s\(.+\) => (?P<path>/[\w/.\-]*)$";

/// Whether `path` begins at the root.
pub open spec fn is_absolute(path: Seq<char>) -> bool {
    path.len() > 0 && path[0] == '/'
}

/// The name and the path among what was captured in a line, where both are
/// there and the path is absolute.
pub open spec fn entry_of(captured: Option<(Option<Seq<char>>, Option<Seq<char>>)>) -> Option<
    (Seq<char>, Seq<char>),
> {
    match captured {
        Some((Some(name), Some(path))) => if is_absolute(path) {
            Some((name, path))
        } else {
            None
        },
        _ => None,
    }
}

/// The library that `line` names, with its path. `None` where the line has
/// not the shape of `LINE_PATTERN`.
pub open spec fn line_entry(line: Seq<char>) -> Option<(Seq<char>, Seq<char>)> {
    if regex_accepts(LINE_PATTERN@) {
        entry_of(regex_captures(LINE_PATTERN@, line, "name"@, "path"@))
    } else {
        None
    }
}

/// The paths that `lines` give, by library name. A later line replaces what
/// an earlier one gave for the same name.
pub open spec fn entries_map(lines: Seq<Seq<char>>) -> Map<Seq<char>, Seq<char>>
    decreases lines.len(),
{
    if lines.len() == 0 {
        Map::empty()
    } else {
        let before = entries_map(lines.drop_last());
        match line_entry(lines.last()) {
            Some((name, path)) => before.insert(name, path),
            None => before,
        }
    }
}

/// The paths that a cache listing gives, by library name.
pub open spec fn ldconfig_paths(listing: Seq<char>) -> Map<Seq<char>, Seq<char>> {
    entries_map(lines(listing))
}

/// A library and where it lies.
struct Entry {
    name: String,
    path: String,
}

/// Paths by library name. No name occurs twice.
///
/// This is a list and no hash map: vstd knows nothing of how a `String` is
/// hashed, so of a map keyed by names not even its size after one insertion
/// can be proved.
pub struct LibraryPaths {
    entries: Vec<Entry>,
}

/// Whether one of `entries` has the name `name`.
spec fn has_name(entries: Seq<Entry>, name: Seq<char>) -> bool {
    exists|i: int| 0 <= i < entries.len() && #[trigger] entries[i].name@ == name
}

/// The place of an entry with the name `name`.
spec fn place_of(entries: Seq<Entry>, name: Seq<char>) -> int {
    choose|i: int| 0 <= i < entries.len() && #[trigger] entries[i].name@ == name
}

/// Whether no two of `entries` have the same name.
spec fn distinct_names(entries: Seq<Entry>) -> bool {
    forall|i: int, j: int|
        0 <= i < j < entries.len() ==> #[trigger] entries[i].name@ != #[trigger] entries[j].name@
}

/// Tells whether `path` begins at the root.
pub fn begins_at_root(path: &str) -> (b: bool)
    ensures
        b == is_absolute(path@),
{
    !path.is_empty() && path.get_char(0) == '/'
}

impl LibraryPaths {
    /// Whether no name occurs twice.
    pub closed spec fn wf(&self) -> bool {
        distinct_names(self.entries@)
    }

    /// The path of each library, by its name.
    pub closed spec fn view(&self) -> Map<Seq<char>, Seq<char>> {
        Map::new(
            |name: Seq<char>| has_name(self.entries@, name),
            |name: Seq<char>| self.entries@[place_of(self.entries@, name)].path@,
        )
    }

    /// No library at all.
    pub fn new() -> (paths: Self)
        ensures
            paths.wf(),
            paths@ == Map::<Seq<char>, Seq<char>>::empty(),
    {
        let paths = LibraryPaths { entries: Vec::new() };
        assert(paths@ =~= Map::<Seq<char>, Seq<char>>::empty());
        paths
    }

    /// Gives `name` the path `path`, in place of the one it had.
    pub fn insert(&mut self, name: String, path: String)
        requires
            old(self).wf(),
        ensures
            final(self).wf(),
            final(self)@ == old(self)@.insert(name@, path@),
    {
        let ghost before = self.entries@;
        let mut i: usize = 0;
        while i < self.entries.len()
            invariant
                i <= self.entries.len(),
                self.entries@ == before,
                old(self).entries@ == before,
                distinct_names(before),
                forall|j: int| 0 <= j < i ==> #[trigger] before[j].name@ != name@,
            decreases self.entries.len() - i,
        {
            if self.entries[i].name == name {
                self.entries.set(i, Entry { name, path });
                proof {
                    let after = self.entries@;
                    assert(distinct_names(after)) by {
                        assert forall|a: int, b: int| 0 <= a < b < after.len() implies #[trigger] after[a].name@
                            != #[trigger] after[b].name@ by {
                            assert(after[a].name@ == before[a].name@);
                            assert(after[b].name@ == before[b].name@);
                        }
                    }
                    assert forall|key: Seq<char>| has_name(after, key) == has_name(before, key) by {
                        if has_name(before, key) {
                            let k = place_of(before, key);
                            assert(after[k].name@ == key);
                        }
                        if has_name(after, key) {
                            let k = place_of(after, key);
                            assert(before[k].name@ == key);
                        }
                    }
                    assert(has_name(before, name@)) by {
                        assert(before[i as int].name@ == name@);
                    }
                    assert forall|key: Seq<char>| has_name(after, key) implies after[place_of(
                        after,
                        key,
                    )].path@ == (if key == name@ {
                        path@
                    } else {
                        before[place_of(before, key)].path@
                    }) by {
                        let k = place_of(after, key);
                        let b = place_of(before, key);
                        assert(after[k].name@ == key);
                        assert(before[b].name@ == key);
                        assert(after[b].name@ == key);
                        assert(k == b);
                    }
                    assert(self@ =~= old(self)@.insert(name@, path@));
                }
                return ;
            }
            i = i + 1;
        }
        self.entries.push(Entry { name, path });
        proof {
            let after = self.entries@;
            let last = before.len() as int;
            assert(distinct_names(after)) by {
                assert forall|a: int, b: int| 0 <= a < b < after.len() implies #[trigger] after[a].name@
                    != #[trigger] after[b].name@ by {
                    assert(after[a].name@ == before[a].name@);
                    if b < last {
                        assert(after[b].name@ == before[b].name@);
                    }
                }
            }
            assert forall|key: Seq<char>| has_name(after, key) == (key == name@ || has_name(
                before,
                key,
            )) by {
                if has_name(before, key) {
                    let k = place_of(before, key);
                    assert(after[k].name@ == key);
                }
                if key == name@ {
                    assert(after[last].name@ == key);
                }
                if has_name(after, key) {
                    let k = place_of(after, key);
                    if k < last {
                        assert(before[k].name@ == key);
                    }
                }
            }
            assert forall|key: Seq<char>| has_name(after, key) implies after[place_of(
                after,
                key,
            )].path@ == (if key == name@ {
                path@
            } else {
                before[place_of(before, key)].path@
            }) by {
                let k = place_of(after, key);
                assert(after[k].name@ == key);
                if key == name@ {
                    assert(after[last].name@ == key);
                    assert(k == last);
                } else {
                    let b = place_of(before, key);
                    assert(before[k].name@ == key);
                    assert(before[b].name@ == key);
                    assert(after[b].name@ == key);
                    assert(k == b);
                }
            }
            assert(self@ =~= old(self)@.insert(name@, path@));
        }
    }

    /// Takes in what was captured in one line: where a name and an absolute
    /// path are there, the name gets the path; else nothing changes.
    pub fn record(&mut self, captured: Option<(Option<String>, Option<String>)>)
        requires
            old(self).wf(),
        ensures
            final(self).wf(),
            final(self)@ == match entry_of(captured.deep_view()) {
                Some((name, path)) => old(self)@.insert(name, path),
                None => old(self)@,
            },
    {
        match captured {
            Some((Some(name), Some(path))) => {
                if begins_at_root(path.as_str()) {
                    self.insert(name, path);
                }
            },
            _ => {},
        }
    }

    /// The path of the library `name`, if it has one.
    pub fn get(&self, name: &String) -> (path: Option<&String>)
        requires
            self.wf(),
        ensures
            match path {
                Some(found) => self@.contains_key(name@) && found@ == self@[name@],
                None => !self@.contains_key(name@),
            },
    {
        let mut i: usize = 0;
        while i < self.entries.len()
            invariant
                i <= self.entries.len(),
                distinct_names(self.entries@),
                forall|j: int| 0 <= j < i ==> #[trigger] self.entries@[j].name@ != name@,
            decreases self.entries.len() - i,
        {
            if self.entries[i].name == *name {
                proof {
                    assert(self.entries@[i as int].name@ == name@);
                    let k = place_of(self.entries@, name@);
                    assert(self.entries@[k].name@ == name@);
                    assert(k == i);
                }
                return Some(&self.entries[i].path);
            }
            i = i + 1;
        }
        None
    }
}

/// Where no line names a library, there are no paths.
proof fn lemma_no_entries(lines: Seq<Seq<char>>)
    requires
        forall|i: int| 0 <= i < lines.len() ==> line_entry(#[trigger] lines[i]) is None,
    ensures
        entries_map(lines) == Map::<Seq<char>, Seq<char>>::empty(),
    decreases lines.len(),
{
    if lines.len() > 0 {
        lemma_no_entries(lines.drop_last());
    }
}

/// Reads a cache listing: the path of each library that one of its lines
/// names. A line of another shape is passed over.
pub fn parse_ldconfig(content: &str) -> (paths: LibraryPaths)
    ensures
        paths.wf(),
        paths@ == ldconfig_paths(content@),
{
    let mut paths = LibraryPaths::new();
    match compile(LINE_PATTERN) {
        None => {
            proof {
                lemma_no_entries(lines(content@));
            }
        },
        Some(re) => {
            let chars = to_chars(content);
            let all = line_spans(&chars);
            let ghost found_lines = cuts(chars@, all@);
            let mut i: usize = 0;
            while i < all.len()
                invariant
                    i <= all.len(),
                    chars@ == content@,
                    all_within(all@, chars@.len()),
                    found_lines == cuts(chars@, all@),
                    paths.wf(),
                    regex_accepts(LINE_PATTERN@),
                    regex_source(re) == LINE_PATTERN@,
                    regex_is_plain(re),
                    paths@ == entries_map(found_lines.take(i as int)),
                decreases all.len() - i,
            {
                let span = all[i];
                assert(span.within(chars@.len()));
                let line = cut(content, span);
                let captured = captures_pair(&re, line, "name", "path");
                proof {
                    assert(found_lines.take(i as int + 1).drop_last() == found_lines.take(i as int));
                    assert(found_lines.take(i as int + 1).last() == line@);
                }
                paths.record(captured);
                i = i + 1;
            }
            assert(found_lines.take(all.len() as int) == found_lines);
        },
    }
    paths
}

/// Whether `line` names the library `name`.
pub open spec fn names_library(line: Seq<char>, name: Seq<char>) -> bool {
    line_entry(line) matches Some(entry) && entry.0 == name
}

/// Whether `line` gives the library `name` a path other than `path`.
pub open spec fn overrides(line: Seq<char>, name: Seq<char>, path: Seq<char>) -> bool {
    line_entry(line) matches Some(entry) && entry.0 == name && entry.1 != path
}

/// A library that one of `lines` names has the path that this line gives,
/// unless a later line gives it another.
pub proof fn lemma_entry_is_kept(lines: Seq<Seq<char>>, i: int, name: Seq<char>, path: Seq<char>)
    requires
        0 <= i < lines.len(),
        line_entry(lines[i]) == Some((name, path)),
        forall|j: int| i < j < lines.len() ==> !overrides(#[trigger] lines[j], name, path),
    ensures
        entries_map(lines).contains_pair(name, path),
    decreases lines.len(),
{
    if i < lines.len() - 1 {
        let before = lines.drop_last();
        assert forall|j: int| i < j < before.len() implies !overrides(
            #[trigger] before[j],
            name,
            path,
        ) by {
            assert(before[j] == lines[j]);
        }
        lemma_entry_is_kept(before, i, name, path);
        assert(!overrides(lines[lines.len() - 1], name, path));
    }
}

/// A library has a path only if one of `lines` names it and gives it that
/// path.
pub proof fn lemma_entry_has_line(lines: Seq<Seq<char>>, name: Seq<char>) -> (i: int)
    requires
        entries_map(lines).contains_key(name),
    ensures
        0 <= i < lines.len(),
        line_entry(lines[i]) == Some((name, entries_map(lines)[name])),
        forall|j: int| i < j < lines.len() ==> !names_library(#[trigger] lines[j], name),
    decreases lines.len(),
{
    if names_library(lines.last(), name) {
        lines.len() - 1
    } else {
        let before = lines.drop_last();
        let i = lemma_entry_has_line(before, name);
        assert forall|j: int| i < j < lines.len() implies !names_library(
            #[trigger] lines[j],
            name,
        ) by {
            if j < before.len() {
                assert(before[j] == lines[j]);
            }
        }
        i
    }
}

/// A line of a cache listing that has the shape of `LINE_PATTERN` puts its
/// library and its path into what the parser returns, unless a later line
/// gives the same library another path.
pub proof fn lemma_listed_library_is_found(
    listing: Seq<char>,
    i: int,
    name: Seq<char>,
    path: Seq<char>,
)
    requires
        0 <= i < lines(listing).len(),
        line_entry(lines(listing)[i]) == Some((name, path)),
        forall|j: int|
            i < j < lines(listing).len() ==> !overrides(#[trigger] lines(listing)[j], name, path),
    ensures
        ldconfig_paths(listing).contains_pair(name, path),
{
    lemma_entry_is_kept(lines(listing), i, name, path);
}

/// Where several lines of a cache listing name the same library, the parser
/// returns for it the path of the last of them.
pub proof fn lemma_last_line_wins(listing: Seq<char>, i: int, name: Seq<char>, path: Seq<char>)
    requires
        0 <= i < lines(listing).len(),
        line_entry(lines(listing)[i]) == Some((name, path)),
        forall|j: int|
            i < j < lines(listing).len() ==> !names_library(#[trigger] lines(listing)[j], name),
    ensures
        ldconfig_paths(listing).contains_key(name),
        ldconfig_paths(listing)[name] == path,
{
    lemma_entry_is_kept(lines(listing), i, name, path);
}

/// A listing without a line of the shape of `LINE_PATTERN` gives no path at
/// all; the empty listing is one.
pub proof fn lemma_shapeless_listing_is_empty(listing: Seq<char>)
    requires
        forall|i: int|
            0 <= i < lines(listing).len() ==> line_entry(#[trigger] lines(listing)[i]) is None,
    ensures
        ldconfig_paths(listing) == Map::<Seq<char>, Seq<char>>::empty(),
{
    lemma_no_entries(lines(listing));
}

/// Reading the same listing again gives the same paths: whatever two
/// readings return, they agree on every library.
pub proof fn lemma_reading_again_gives_the_same(
    first: LibraryPaths,
    second: LibraryPaths,
    listing: Seq<char>,
)
    requires
        first@ == ldconfig_paths(listing),
        second@ == ldconfig_paths(listing),
    ensures
        first@ == second@,
        forall|name: Seq<char>| first@.contains_key(name) == second@.contains_key(name),
        forall|name: Seq<char>| first@.contains_key(name) ==> first@[name] == second@[name],
{
}

/// Every path that a cache listing gives is absolute, whatever the lines
/// hold.
pub proof fn lemma_every_path_is_absolute(listing: Seq<char>, name: Seq<char>)
    requires
        ldconfig_paths(listing).contains_key(name),
    ensures
        is_absolute(ldconfig_paths(listing)[name]),
{
    let i = lemma_entry_has_line(lines(listing), name);
}

} // verus!
