//! Profile discovery: scanning the text of an AWS config file for
//! `[profile <name>]` and `[default]` section headers.
//!
//! The scan walks the whole file content left to right and takes every
//! non-overlapping header, in order of appearance.  A `[profile <name>]`
//! header contributes the captured name; a `[default]` header contributes
//! nothing, because the implicit profile `"default"` always stands first
//! in the discovered list.
//!
//! A profile header is the eight characters `[profile`, then at least one
//! whitespace character, then at least one further character, up to the
//! first `]` that follows.  The captured name starts after the first
//! whitespace run, except that when everything before the `]` is
//! whitespace the capture keeps the run's last character, so that the
//! name is never empty.

use vstd::prelude::*;
use vstd::string::StrSliceExecFns;
use vstd::string::StringExecFns;

verus! {

/// Whitespace as the profile-header pattern understands it: the Unicode
/// `White_Space` characters, the class that separates the word `profile`
/// from the profile name inside a section header.
pub open spec fn spec_header_ws(c: char) -> bool {
    let u = c as u32;
    ||| u == 0x09
    ||| u == 0x0a
    ||| u == 0x0b
    ||| u == 0x0c
    ||| u == 0x0d
    ||| u == 0x20
    ||| u == 0x85
    ||| u == 0xa0
    ||| u == 0x1680
    ||| (0x2000 <= u && u <= 0x200a)
    ||| u == 0x2028
    ||| u == 0x2029
    ||| u == 0x202f
    ||| u == 0x205f
    ||| u == 0x3000
}

/// Runtime test for [`spec_header_ws`].
pub fn is_header_ws(c: char) -> (r: bool)
    ensures
        r == spec_header_ws(c),
{
    let u = c as u32;
    u == 0x09 || u == 0x0a || u == 0x0b || u == 0x0c || u == 0x0d || u == 0x20 || u == 0x85
        || u == 0xa0 || u == 0x1680 || (0x2000 <= u && u <= 0x200a) || u == 0x2028 || u == 0x2029
        || u == 0x202f || u == 0x205f || u == 0x3000
}

/// The characters that open a profile header.
pub open spec fn profile_prefix() -> Seq<char> {
    seq!['[', 'p', 'r', 'o', 'f', 'i', 'l', 'e']
}

/// The characters of a `[default]` header.
pub open spec fn default_header() -> Seq<char> {
    seq!['[', 'd', 'e', 'f', 'a', 'u', 'l', 't', ']']
}

/// The name of the implicit profile that every discovery lists first.
pub open spec fn default_name() -> Seq<char> {
    seq!['d', 'e', 'f', 'a', 'u', 'l', 't']
}

/// The index of the first `]` at or after `i`, if there is one.
pub open spec fn first_rbracket_from(s: Seq<char>, i: int) -> Option<int>
    decreases s.len() - i,
{
    if i < 0 || i >= s.len() {
        None
    } else if s[i] == ']' {
        Some(i)
    } else {
        first_rbracket_from(s, i + 1)
    }
}

/// The index just after the maximal run of header whitespace starting at `i`.
pub open spec fn ws_run_end(s: Seq<char>, i: int) -> int
    decreases s.len() - i,
{
    if i < 0 || i >= s.len() {
        i
    } else if spec_header_ws(s[i]) {
        ws_run_end(s, i + 1)
    } else {
        i
    }
}

proof fn lemma_first_rbracket_from(s: Seq<char>, i: int)
    requires
        0 <= i,
    ensures
        match first_rbracket_from(s, i) {
            Some(e) => i <= e < s.len() && s[e] == ']' && (forall|j: int| i <= j < e ==> s[j] != ']'),
            None => forall|j: int| i <= j < s.len() ==> s[j] != ']',
        },
    decreases s.len() - i,
{
    if i >= s.len() {
    } else if s[i] == ']' {
    } else {
        lemma_first_rbracket_from(s, i + 1);
    }
}

proof fn lemma_ws_run_end(s: Seq<char>, i: int)
    requires
        0 <= i <= s.len(),
    ensures
        i <= ws_run_end(s, i) <= s.len(),
        forall|j: int| i <= j < ws_run_end(s, i) ==> spec_header_ws(s[j]),
        ws_run_end(s, i) < s.len() ==> !spec_header_ws(s[ws_run_end(s, i)]),
    decreases s.len() - i,
{
    if i < s.len() && spec_header_ws(s[i]) {
        lemma_ws_run_end(s, i + 1);
    }
}

/// Whether a profile header matches at position `i`: the opening
/// characters, a whitespace character right after them, and a closing
/// `]` with at least two characters in between.
pub open spec fn profile_match_at(s: Seq<char>, i: int) -> bool {
    &&& 0 <= i
    &&& i + 8 < s.len()
    &&& s.subrange(i, i + 8) == profile_prefix()
    &&& spec_header_ws(s[i + 8])
    &&& (match first_rbracket_from(s, i + 8) {
        Some(e) => e >= i + 10,
        None => false,
    })
}

/// The index of the `]` that closes the profile header matched at `i`.
/// Meaningful only when [`profile_match_at`] holds.
pub open spec fn profile_close(s: Seq<char>, i: int) -> int {
    match first_rbracket_from(s, i + 8) {
        Some(e) => e,
        None => i + 8,
    }
}

/// The index just after the profile header matched at `i`.
pub open spec fn profile_match_end(s: Seq<char>, i: int) -> int {
    profile_close(s, i) + 1
}

/// The name captured by the profile header matched at `i`: everything
/// from the end of the first whitespace run to the closing `]`, except
/// that a name consisting of whitespace only keeps its last character.
pub open spec fn capture_at(s: Seq<char>, i: int) -> Seq<char> {
    let e = profile_close(s, i);
    let w = ws_run_end(s, i + 8);
    let start = if w < e {
        w
    } else {
        e - 1
    };
    s.subrange(start, e)
}

/// Whether a `[default]` header matches at position `i`.
pub open spec fn default_match_at(s: Seq<char>, i: int) -> bool {
    &&& 0 <= i
    &&& i + 9 <= s.len()
    &&& s.subrange(i, i + 9) == default_header()
}

#[via_fn]
proof fn captures_from_decreases(s: Seq<char>, i: int) {
    if !(i < 0 || i >= s.len()) && profile_match_at(s, i) {
        lemma_first_rbracket_from(s, i + 8);
    }
}

/// Every name captured by a profile header at or after position `i`,
/// scanning left to right and never overlapping two headers.
pub open spec fn captures_from(s: Seq<char>, i: int) -> Seq<Seq<char>>
    decreases s.len() - i,
    via captures_from_decreases
{
    if i < 0 || i >= s.len() {
        Seq::empty()
    } else if profile_match_at(s, i) {
        seq![capture_at(s, i)] + captures_from(s, profile_match_end(s, i))
    } else if default_match_at(s, i) {
        captures_from(s, i + 9)
    } else {
        captures_from(s, i + 1)
    }
}

/// What discovery returns for a config file with the given content: the
/// implicit `"default"` first, then every captured profile name in file
/// order, duplicates kept.
pub open spec fn discovered_profiles(s: Seq<char>) -> Seq<Seq<char>> {
    seq![default_name()] + captures_from(s, 0)
}

fn find_rbracket(s: &str, from: usize, len: usize) -> (r: Option<usize>)
    requires
        len == s@.len(),
        from <= len,
    ensures
        match r {
            Some(e) => first_rbracket_from(s@, from as int) == Some(e as int) && from <= e < len,
            None => first_rbracket_from(s@, from as int) is None,
        },
{
    let mut i = from;
    while i < len
        invariant
            from <= i <= len,
            len == s@.len(),
            first_rbracket_from(s@, from as int) == first_rbracket_from(s@, i as int),
        decreases len - i,
    {
        if s.get_char(i) == ']' {
            return Some(i);
        }
        i = i + 1;
    }
    None
}

fn ws_end(s: &str, from: usize, len: usize) -> (r: usize)
    requires
        len == s@.len(),
        from <= len,
    ensures
        r == ws_run_end(s@, from as int),
        from <= r <= len,
{
    let mut i = from;
    while i < len
        invariant
            from <= i <= len,
            len == s@.len(),
            ws_run_end(s@, from as int) == ws_run_end(s@, i as int),
        decreases len - i,
    {
        if !is_header_ws(s.get_char(i)) {
            return i;
        }
        i = i + 1;
    }
    i
}

fn profile_prefix_at(s: &str, i: usize, len: usize) -> (r: bool)
    requires
        len == s@.len(),
        i <= len,
    ensures
        r == (i + 8 <= len && s@.subrange(i as int, i as int + 8) == profile_prefix()),
{
    if len - i < 8 {
        return false;
    }
    let c0 = s.get_char(i);
    let c1 = s.get_char(i + 1);
    let c2 = s.get_char(i + 2);
    let c3 = s.get_char(i + 3);
    let c4 = s.get_char(i + 4);
    let c5 = s.get_char(i + 5);
    let c6 = s.get_char(i + 6);
    let c7 = s.get_char(i + 7);
    let r = c0 == '[' && c1 == 'p' && c2 == 'r' && c3 == 'o' && c4 == 'f' && c5 == 'i' && c6 == 'l'
        && c7 == 'e';
    proof {
        let sub = s@.subrange(i as int, i as int + 8);
        if r {
            assert(sub =~= profile_prefix());
        } else {
            if sub == profile_prefix() {
                assert(c0 == sub[0] && c1 == sub[1] && c2 == sub[2] && c3 == sub[3] && c4 == sub[4]
                    && c5 == sub[5] && c6 == sub[6] && c7 == sub[7]);
                assert(false);
            }
        }
    }
    r
}

fn check_default_at(s: &str, i: usize, len: usize) -> (r: bool)
    requires
        len == s@.len(),
        i <= len,
    ensures
        r == default_match_at(s@, i as int),
{
    if len - i < 9 {
        return false;
    }
    let c0 = s.get_char(i);
    let c1 = s.get_char(i + 1);
    let c2 = s.get_char(i + 2);
    let c3 = s.get_char(i + 3);
    let c4 = s.get_char(i + 4);
    let c5 = s.get_char(i + 5);
    let c6 = s.get_char(i + 6);
    let c7 = s.get_char(i + 7);
    let c8 = s.get_char(i + 8);
    let r = c0 == '[' && c1 == 'd' && c2 == 'e' && c3 == 'f' && c4 == 'a' && c5 == 'u' && c6 == 'l'
        && c7 == 't' && c8 == ']';
    proof {
        let sub = s@.subrange(i as int, i as int + 9);
        if r {
            assert(sub =~= default_header());
        } else {
            if sub == default_header() {
                assert(c0 == sub[0] && c1 == sub[1] && c2 == sub[2] && c3 == sub[3] && c4 == sub[4]
                    && c5 == sub[5] && c6 == sub[6] && c7 == sub[7] && c8 == sub[8]);
                assert(false);
            }
        }
    }
    r
}

fn check_profile_at(s: &str, i: usize, len: usize) -> (r: Option<(usize, String)>)
    requires
        len == s@.len(),
        i < len,
    ensures
        r is Some <==> profile_match_at(s@, i as int),
        (match r {
            Some((end, name)) => end == profile_match_end(s@, i as int) && i < end <= len
                && name@ == capture_at(s@, i as int),
            None => true,
        }),
{
    if !profile_prefix_at(s, i, len) {
        return None;
    }
    if i + 8 == len {
        return None;
    }
    let c = s.get_char(i + 8);
    if !is_header_ws(c) {
        return None;
    }
    let e = match find_rbracket(s, i + 8, len) {
        None => {
            return None;
        },
        Some(e) => e,
    };
    if e - i < 10 {
        return None;
    }
    let w = ws_end(s, i + 8, len);
    proof {
        lemma_first_rbracket_from(s@, i as int + 8);
        lemma_ws_run_end(s@, i as int + 8);
        assert(s@[e as int] == ']');
        assert(!spec_header_ws(']'));
        assert(w <= e);
    }
    let start = if w < e {
        w
    } else {
        e - 1
    };
    let name_slice = s.substring_char(start, e);
    let name = name_slice.to_owned();
    Some((e + 1, name))
}

/// Every profile name captured from the content, in file order.
pub fn scan_profile_captures(content: &str) -> (names: Vec<String>)
    ensures
        names@.map_values(|n: String| n@) == captures_from(content@, 0),
{
    let len = content.unicode_len();
    let mut names: Vec<String> = Vec::new();
    let mut i: usize = 0;
    while i < len
        invariant
            i <= len,
            len == content@.len(),
            names@.map_values(|n: String| n@) + captures_from(content@, i as int) == captures_from(
                content@,
                0,
            ),
        decreases len - i,
    {
        match check_profile_at(content, i, len) {
            Some((end, name)) => {
                let ghost prev = names@;
                let ghost cap = capture_at(content@, i as int);
                names.push(name);
                proof {
                    assert(names@.map_values(|n: String| n@) =~= prev.map_values(|n: String| n@)
                        + seq![cap]);
                    assert(captures_from(content@, i as int) == seq![cap] + captures_from(
                        content@,
                        end as int,
                    ));
                    assert((prev.map_values(|n: String| n@) + seq![cap]) + captures_from(
                        content@,
                        end as int,
                    ) =~= prev.map_values(|n: String| n@) + (seq![cap] + captures_from(
                        content@,
                        end as int,
                    )));
                }
                i = end;
            },
            None => {
                if check_default_at(content, i, len) {
                    i = i + 9;
                } else {
                    i = i + 1;
                }
            },
        }
    }
    proof {
        assert(captures_from(content@, len as int) =~= Seq::empty());
        assert(names@.map_values(|n: String| n@) + Seq::<Seq<char>>::empty() =~= names@.map_values(
            |n: String| n@,
        ));
    }
    names
}

/// The discovered profile list for the given config file content: the
/// implicit `"default"` first, then every `[profile <name>]` capture in
/// file order, duplicates kept, `[default]` headers contributing nothing.
pub fn discover_profiles(content: &str) -> (profiles: Vec<String>)
    ensures
        profiles@.map_values(|p: String| p@) == discovered_profiles(content@),
        profiles@.len() >= 1,
        profiles@[0]@ == default_name(),
{
    let mut profiles: Vec<String> = Vec::new();
    profiles.push(String::from_str("default"));
    let mut names = scan_profile_captures(content);
    let ghost caps = names@.map_values(|n: String| n@);
    profiles.append(&mut names);
    proof {
        reveal_strlit("default");
        assert("default"@ =~= default_name());
        assert(profiles@.map_values(|p: String| p@) =~= seq![default_name()] + caps);
        assert(profiles@.map_values(|p: String| p@)[0] == profiles@[0]@);
    }
    profiles
}

/// The error text reported when no home directory can be determined.
pub fn home_missing_error() -> (r: String)
    ensures
        r@ == "Could not find home directory"@,
{
    String::from_str("Could not find home directory")
}

/// The error text reported when the config file cannot be read, wrapping
/// the underlying cause.
pub fn read_failure_error(cause: &str) -> (r: String)
    ensures
        r@ == "Failed to read AWS config: "@ + cause@,
{
    let mut m = String::from_str("Failed to read AWS config: ");
    m.append(cause);
    m
}

/// The profile list for the outcome of reading the config file: parsed
/// content on a successful read, and on a failed read the cause wrapped
/// in the exact text of [`read_failure_error`].  The read itself is the
/// caller's; every outcome of it is classified here.
pub fn profiles_from_read(read: Result<String, String>) -> (r: Result<Vec<String>, String>)
    ensures
        match read {
            Ok(content) => r matches Ok(profiles) && profiles@.map_values(|p: String| p@)
                == discovered_profiles(content@) && profiles@.len() >= 1 && profiles@[0]@
                == default_name(),
            Err(cause) => r matches Err(m) && m@ == "Failed to read AWS config: "@ + cause@,
        },
{
    match read {
        Ok(content) => Ok(discover_profiles(content.as_str())),
        Err(cause) => Err(read_failure_error(cause.as_str())),
    }
}

/// Relies on dirs::home_dir: the current user's home directory, if one
/// can be determined from the environment, converted to text with any
/// non-Unicode component replaced.
#[verifier::external_body]
fn home_dir_text() -> (r: Option<String>) {
    dirs::home_dir().map(|p| p.to_string_lossy().into_owned())
}

/// The location of the AWS config file: the home directory joined with
/// `.aws/config`.  When no home directory can be determined, the error
/// is the exact text of [`home_missing_error`].
pub fn aws_config_path() -> (r: Result<String, String>)
    ensures
        r matches Err(m) ==> m@ == "Could not find home directory"@,
        r matches Ok(p) ==> p@.len() >= "/.aws/config"@.len() && p@.subrange(
            p@.len() - "/.aws/config"@.len(),
            p@.len() as int,
        ) == "/.aws/config"@,
{
    match home_dir_text() {
        None => Err(home_missing_error()),
        Some(h) => {
            proof {
                reveal_strlit("/.aws/config");
            }
            let p = h.concat("/.aws/config");
            proof {
                assert(p@.subrange(p@.len() - "/.aws/config"@.len(), p@.len() as int)
                    =~= "/.aws/config"@);
            }
            Ok(p)
        },
    }
}

/// A config file in which no profile header and no `[default]` header
/// matches anywhere yields the implicit `"default"` alone.
pub proof fn lemma_no_headers_only_default(s: Seq<char>)
    requires
        forall|i: int| !profile_match_at(s, i),
        forall|i: int| !default_match_at(s, i),
    ensures
        discovered_profiles(s) =~= seq![default_name()],
{
    lemma_no_headers_captures_empty(s, 0);
    assert(seq![default_name()] + Seq::<Seq<char>>::empty() =~= seq![default_name()]);
}

proof fn lemma_no_headers_captures_empty(s: Seq<char>, i: int)
    requires
        0 <= i,
        forall|j: int| !profile_match_at(s, j),
        forall|j: int| !default_match_at(s, j),
    ensures
        captures_from(s, i) =~= Seq::empty(),
    decreases s.len() - i,
{
    if i < s.len() {
        lemma_no_headers_captures_empty(s, i + 1);
    }
}

/// A `[default]` header contributes no entry: the scan steps over it and
/// captures exactly what the rest of the content captures.
pub proof fn lemma_default_header_adds_nothing(s: Seq<char>, i: int)
    requires
        default_match_at(s, i),
    ensures
        captures_from(s, i) == captures_from(s, i + 9),
{
    assert(s.subrange(i, i + 9)[1] == 'd');
    if profile_match_at(s, i) {
        assert(s.subrange(i, i + 8)[1] == 'p');
    }
}

/// Discovery is a pure function of the file content: two discoveries of
/// unchanged content return the same profile list.
pub proof fn lemma_discovery_repeatable(
    content: Seq<char>,
    first: Seq<Seq<char>>,
    second: Seq<Seq<char>>,
)
    requires
        first == discovered_profiles(content),
        second == discovered_profiles(content),
    ensures
        first == second,
{
}

} // verus!
