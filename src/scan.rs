//! The pure steps of the library scan that work on file names and text.
use vstd::prelude::*;
use vstd::string::{StrSliceExecFns, StringExecFns};

verus! {

/// What `str::to_lowercase` makes of a text.
pub uninterp spec fn lower_of(s: Seq<char>) -> Seq<char>;

/// Relies on `str::to_lowercase`: the result depends on the characters
/// alone, and an empty text stays empty.
#[verifier::external_body]
fn lowercase(s: &str) -> (r: String)
    ensures
        r@ == lower_of(s@),
        s@.len() == 0 ==> r@.len() == 0,
{
    s.to_lowercase()
}

pub open spec fn is_separator(c: char) -> bool {
    c == '/' || c == '\\'
}

/// `d` is the dot that starts the extension of the file name at the end of
/// `s`: the last dot of the name, with a character of the name before it.
pub open spec fn is_extension_dot(s: Seq<char>, d: int) -> bool {
    &&& 0 < d < s.len()
    &&& s[d] == '.'
    &&& !is_separator(s[d - 1])
    &&& forall|j: int| d < j < s.len() ==> s[j] != '.' && !is_separator(s[j])
}

/// The extension of the file name at the end of `s`, if it has one.
pub open spec fn extension_of(s: Seq<char>) -> Option<Seq<char>> {
    if exists|d: int| is_extension_dot(s, d) {
        let d = choose|d: int| is_extension_dot(s, d);
        Some(s.subrange(d + 1, s.len() as int))
    } else {
        None
    }
}

/// The extensions of the audio formats the player reads, in lower case.
pub open spec fn is_supported_name(e: Seq<char>) -> bool {
    e == "mp3"@ || e == "flac"@ || e == "wav"@ || e == "aac"@ || e == "m4a"@ || e == "ogg"@
}

proof fn lemma_extension_dot_unique(s: Seq<char>, d: int, e: int)
    requires
        is_extension_dot(s, d),
        is_extension_dot(s, e),
    ensures
        d == e,
{
}

/// The position of the dot that starts the extension of `path`, if any.
fn extension_dot(path: &str) -> (r: Option<usize>)
    ensures
        match r {
            Some(d) => is_extension_dot(path@, d as int),
            None => forall|d: int| !is_extension_dot(path@, d),
        },
{
    let n = path.unicode_len();
    let mut i: usize = n;
    while i > 0
        invariant
            i <= n == path@.len(),
            forall|j: int| i <= j < n ==> path@[j] != '.' && !is_separator(path@[j]),
        decreases i,
    {
        let c = path.get_char(i - 1);
        if c == '.' {
            let d = i - 1;
            if d > 0 {
                let before = path.get_char(d - 1);
                if before != '/' && before != '\\' {
                    return Some(d);
                }
            }
            assert forall|e: int| !is_extension_dot(path@, e) by {
                if is_extension_dot(path@, e) && e < d {
                    assert(path@[d as int] == '.');
                }
            }
            return None;
        }
        if c == '/' || c == '\\' {
            assert forall|e: int| !is_extension_dot(path@, e) by {
                if is_extension_dot(path@, e) && e < i - 1 {
                    assert(is_separator(path@[i - 1]));
                }
            }
            return None;
        }
        i = i - 1;
    }
    None
}

/// Whether `c` and `d` hold the same characters.
fn same_text(c: &str, d: &str) -> (r: bool)
    ensures
        r == (c@ == d@),
{
    let n = c.unicode_len();
    if n != d.unicode_len() {
        return false;
    }
    let mut i: usize = 0;
    while i < n
        invariant
            i <= n == c@.len() == d@.len(),
            c@.subrange(0, i as int) == d@.subrange(0, i as int),
        decreases n - i,
    {
        if c.get_char(i) != d.get_char(i) {
            assert(c@[i as int] != d@[i as int]);
            return false;
        }
        assert(c@.subrange(0, i + 1) =~= c@.subrange(0, i as int).push(c@[i as int]));
        assert(d@.subrange(0, i + 1) =~= d@.subrange(0, i as int).push(d@[i as int]));
        i = i + 1;
    }
    assert(c@ =~= c@.subrange(0, n as int));
    assert(d@ =~= d@.subrange(0, n as int));
    true
}

/// Whether `ext`, an extension in lower case, names a supported audio format.
pub fn is_supported_name_of(ext: &str) -> (r: bool)
    ensures
        r == is_supported_name(ext@),
{
    proof {
        reveal_strlit("mp3");
        reveal_strlit("flac");
        reveal_strlit("wav");
        reveal_strlit("aac");
        reveal_strlit("m4a");
        reveal_strlit("ogg");
    }
    same_text(ext, "mp3") || same_text(ext, "flac") || same_text(ext, "wav") || same_text(ext, "aac")
        || same_text(ext, "m4a") || same_text(ext, "ogg")
}

/// Whether the extension of `path`, in lower case, names a supported audio
/// format; a path without an extension is not audio.
pub fn is_supported_extension(path: &str) -> (r: bool)
    ensures
        r == match extension_of(path@) {
            Some(e) => is_supported_name(lower_of(e)),
            None => false,
        },
{
    let n = path.unicode_len();
    match extension_dot(path) {
        Some(d) => {
            proof {
                let e = choose|e: int| is_extension_dot(path@, e);
                lemma_extension_dot_unique(path@, d as int, e);
            }
            let ext = path.substring_char(d + 1, n);
            let lower = lowercase(ext);
            is_supported_name_of(lower.as_str())
        },
        None => {
            proof {
                reveal_strlit("mp3");
            }
            false
        },
    }
}

/// `s` with each single quote doubled, as a SQL string literal needs.
pub open spec fn escape_quotes(s: Seq<char>) -> Seq<char>
    decreases s.len(),
{
    if s.len() == 0 {
        Seq::empty()
    } else {
        escape_quotes(s.drop_last()) + if s.last() == '\'' {
            seq!['\'', '\'']
        } else {
            seq![s.last()]
        }
    }
}

/// Doubles each single quote of `input`.
pub fn escape_sql_string(input: &str) -> (r: String)
    ensures
        r@ == escape_quotes(input@),
{
    let n = input.unicode_len();
    let mut out = String::new();
    let mut i: usize = 0;
    while i < n
        invariant
            i <= n == input@.len(),
            out@ == escape_quotes(input@.subrange(0, i as int)),
        decreases n - i,
    {
        let c = input.get_char(i);
        proof {
            let p = input@.subrange(0, i + 1);
            assert(p.drop_last() =~= input@.subrange(0, i as int));
            assert(p.last() == c);
        }
        if c == '\'' {
            proof {
                reveal_strlit("''");
            }
            out.append("''");
        } else {
            let one = input.substring_char(i, i + 1);
            assert(one@ =~= seq![c]);
            out.append(one);
        }
        i = i + 1;
    }
    assert(input@.subrange(0, n as int) =~= input@);
    out
}

/// `k` is where the last `/`-separated component of `s` starts.
pub open spec fn is_component_start(s: Seq<char>, k: int) -> bool {
    &&& 0 <= k <= s.len()
    &&& k == 0 || s[k - 1] == '/'
    &&& forall|j: int| k <= j < s.len() ==> s[j] != '/'
}

/// `i` is the first dot at or after `k` in `s`.
pub open spec fn is_first_dot_from(s: Seq<char>, k: int, i: int) -> bool {
    &&& k <= i < s.len()
    &&& s[i] == '.'
    &&& forall|j: int| k <= j < i ==> s[j] != '.'
}

/// The format named by a path: what follows the first dot of its last
/// `/`-separated component, or nothing when it has no dot.
pub open spec fn format_suffix(s: Seq<char>) -> Seq<char> {
    let k = component_start(s);
    if exists|i: int| is_first_dot_from(s, k, i) {
        s.subrange(first_dot_from(s, k) + 1, s.len() as int)
    } else {
        Seq::empty()
    }
}

/// Where the last `/`-separated component of `s` starts.
pub open spec fn component_start(s: Seq<char>) -> int {
    choose|k: int| is_component_start(s, k)
}

/// The first dot at or after `k` in `s`.
pub open spec fn first_dot_from(s: Seq<char>, k: int) -> int {
    choose|i: int| is_first_dot_from(s, k, i)
}

/// The format suffix of `filename` (see `format_suffix`), such as `flac` or
/// `tar.gz`; `filename` is a canonical path.
pub fn get_extension_from_filename(filename: &str) -> (r: String)
    ensures
        r@ == format_suffix(filename@),
{
    let n = filename.unicode_len();
    let mut k: usize = n;
    while k > 0 && filename.get_char(k - 1) != '/'
        invariant
            k <= n == filename@.len(),
            forall|j: int| k <= j < n ==> filename@[j] != '/',
        decreases k,
    {
        k = k - 1;
    }
    assert(is_component_start(filename@, k as int));
    proof {
        let k2 = choose|k2: int| is_component_start(filename@, k2);
        if k2 < k {
            assert(filename@[k - 1] == '/');
        } else if k2 > k {
            assert(filename@[k2 - 1] == '/');
        }
    }
    assert(component_start(filename@) == k as int);
    let mut i: usize = k;
    while i < n
        invariant
            k <= i <= n == filename@.len(),
            component_start(filename@) == k as int,
            forall|j: int| k <= j < i ==> filename@[j] != '.',
        decreases n - i,
    {
        if filename.get_char(i) == '.' {
            proof {
                let i2 = choose|i2: int| is_first_dot_from(filename@, k as int, i2);
                assert(is_first_dot_from(filename@, k as int, i as int));
                if i2 < i {
                } else if i2 > i {
                    assert(filename@[i as int] == '.');
                }
            }
            assert(first_dot_from(filename@, k as int) == i as int);
            let mut out = String::new();
            let rest = filename.substring_char(i + 1, n);
            out.append(rest);
            assert(out@ =~= filename@.subrange(i + 1, n as int));
            assert(format_suffix(filename@) == filename@.subrange(i + 1, n as int));
            return out;
        }
        i = i + 1;
    }
    String::new()
}

} // verus!
