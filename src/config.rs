//! Checks applied to the values of an album manifest: relative paths that
//! cannot leave the album directory, and `M:SS` durations.

use vstd::prelude::*;
use crate::text::{chars_of, concat, concat3, parse_u64, parse_u64_of, trim_chars, trim_of};

verus! {

/// Errors of the manifest and of the files it names.
#[derive(Debug)]
pub enum Error {
    ConfigParse(String),
    IoError(String),
    InvalidData(String),
}

impl Error {
    /// The message shown to the operator.
    pub fn to_string(&self) -> (r: String)
        ensures
            r@ == match self {
                Error::ConfigParse(m) => "Configuration parse error: "@ + m@,
                Error::IoError(m) => "IO error: "@ + m@,
                Error::InvalidData(m) => "Invalid data: "@ + m@,
            },
    {
        match self {
            Error::ConfigParse(m) => concat("Configuration parse error: ", m.as_str()),
            Error::IoError(m) => concat("IO error: ", m.as_str()),
            Error::InvalidData(m) => concat("Invalid data: ", m.as_str()),
        }
    }
}

pub open spec fn is_path_separator(c: char) -> bool {
    c == '/' || c == '\\'
}

/// A path rooted at `/` or `\`, or at a drive letter such as `C:\`.
pub open spec fn is_absolute_path(p: Seq<char>) -> bool {
    ||| p.len() > 0 && is_path_separator(p[0])
    ||| p.len() >= 3 && (('a' <= p[0] && p[0] <= 'z') || ('A' <= p[0] && p[0] <= 'Z')) && p[1]
        == ':' && is_path_separator(p[2])
}

/// `..` stands at `i` as a whole path component.
pub open spec fn parent_component_at(p: Seq<char>, i: int) -> bool {
    &&& 0 <= i
    &&& i + 2 <= p.len()
    &&& p[i] == '.'
    &&& p[i + 1] == '.'
    &&& (i == 0 || is_path_separator(p[i - 1]))
    &&& (i + 2 == p.len() || is_path_separator(p[i + 2]))
}

pub open spec fn has_parent_component(p: Seq<char>) -> bool {
    exists|i: int| parent_component_at(p, i)
}

/// Which check a path fails first, if any: absolute, then `..`, then blank.
pub open spec fn path_problem(p: Seq<char>) -> Option<int> {
    if is_absolute_path(p) {
        Some(0)
    } else if has_parent_component(p) {
        Some(1)
    } else if trim_of(p).len() == 0 {
        Some(2)
    } else {
        None
    }
}

fn is_separator(c: char) -> (r: bool)
    ensures
        r == is_path_separator(c),
{
    c == '/' || c == '\\'
}

/// Accepts a path from the manifest only when it is relative, has no `..`
/// component and is not blank, so that it cannot reach outside the album
/// directory. The error names the field and the path.
pub fn validate_path(path_str: &str, field_name: &str) -> (r: Result<String, Error>)
    ensures
        r is Ok <==> path_problem(path_str@) is None,
        r is Ok ==> r->Ok_0@ == path_str@,
        path_problem(path_str@) == Some(0int) ==> r is Err && r->Err_0 is ConfigParse
            && r->Err_0->ConfigParse_0@ == "Absolute paths not allowed in '"@ + field_name@
            + "': '"@ + path_str@ + "'. Use relative paths only."@,
        path_problem(path_str@) == Some(1int) ==> r is Err && r->Err_0 is ConfigParse
            && r->Err_0->ConfigParse_0@ == "Parent directory references (..) not allowed in '"@
            + field_name@ + "': '"@ + path_str@ + "'"@,
        path_problem(path_str@) == Some(2int) ==> r is Err && r->Err_0 is ConfigParse
            && r->Err_0->ConfigParse_0@ == "Empty path in '"@ + field_name@ + "' field"@,
{
    let cs = chars_of(path_str);
    let n = cs.len();
    let absolute = (n > 0 && is_separator(cs[0])) || (n >= 3 && (('a' <= cs[0] && cs[0] <= 'z')
        || ('A' <= cs[0] && cs[0] <= 'Z')) && cs[1] == ':' && is_separator(cs[2]));
    if absolute {
        let head = concat3("Absolute paths not allowed in '", field_name, "': '");
        let msg = concat3(head.as_str(), path_str, "'. Use relative paths only.");
        return Err(Error::ConfigParse(msg));
    }
    let mut i: usize = 0;
    while i < n
        invariant
            i <= n,
            n == cs@.len(),
            cs@ == path_str@,
            !is_absolute_path(path_str@),
            forall|j: int| 0 <= j < i ==> !parent_component_at(cs@, j),
        decreases n - i,
    {
        if i + 1 < n && cs[i] == '.' && cs[i + 1] == '.' && (i == 0 || is_separator(cs[i - 1])) && (i
            + 2 == n || is_separator(cs[i + 2])) {
            assert(parent_component_at(path_str@, i as int));
            let head = concat3("Parent directory references (..) not allowed in '", field_name, "': '");
            let msg = concat3(head.as_str(), path_str, "'");
            return Err(Error::ConfigParse(msg));
        }
        i = i + 1;
    }
    proof {
        assert forall|j: int| !parent_component_at(cs@, j) by {
            if 0 <= j < i {
            }
        }
    }
    let trimmed = trim_chars(&cs);
    if trimmed.len() == 0 {
        let msg = concat3("Empty path in '", field_name, "' field");
        return Err(Error::ConfigParse(msg));
    }
    Ok(String::from_str(path_str))
}

/// The seconds that an `M:SS` duration stands for, or why it is not one:
/// exactly one colon, unsigned decimal minutes and seconds, seconds
/// below 60.
pub open spec fn duration_of(s: Seq<char>) -> Option<u64> {
    if colon_count(s) != 1 {
        None
    } else {
        let c = colon_index(s);
        let m = parse_u64_of(s.subrange(0, c));
        let sec = parse_u64_of(s.subrange(c + 1, s.len() as int));
        if m is None || sec is None || sec->Some_0 >= 60 || m->Some_0 * 60 + sec->Some_0
            > u64::MAX {
            None
        } else {
            Some((m->Some_0 * 60 + sec->Some_0) as u64)
        }
    }
}

pub open spec fn colon_count(s: Seq<char>) -> nat
    decreases s.len(),
{
    if s.len() == 0 {
        0
    } else {
        colon_count(s.drop_last()) + if s.last() == ':' {
            1nat
        } else {
            0nat
        }
    }
}

/// Position of the first colon.
pub open spec fn colon_index(s: Seq<char>) -> int {
    choose|i: int| 0 <= i < s.len() && s[i] == ':' && forall|j: int| 0 <= j < i ==> s[j] != ':'
}

proof fn lemma_colon_count_step(s: Seq<char>, i: int)
    requires
        0 <= i < s.len(),
    ensures
        colon_count(s.subrange(0, i + 1)) == colon_count(s.subrange(0, i)) + if s[i] == ':' {
            1nat
        } else {
            0nat
        },
{
    assert(s.subrange(0, i + 1).drop_last() =~= s.subrange(0, i));
}

proof fn lemma_colon_count_zero(s: Seq<char>)
    requires
        colon_count(s) == 0,
    ensures
        forall|j: int| 0 <= j < s.len() ==> s[j] != ':',
    decreases s.len(),
{
    if s.len() > 0 {
        lemma_colon_count_zero(s.drop_last());
        assert forall|j: int| 0 <= j < s.len() implies s[j] != ':' by {
            if j < s.len() - 1 {
                assert(s[j] == s.drop_last()[j]);
            }
        }
    }
}

/// Parses a duration written `M:SS` (`5:23`, `0:45`, `999:59`) into seconds.
pub fn parse_duration(s: &str) -> (r: Result<u64, Error>)
    ensures
        r is Ok <==> duration_of(s@) is Some,
        r is Ok ==> r->Ok_0 == duration_of(s@)->Some_0,
        r is Err ==> r->Err_0 is ConfigParse,
{
    let cs = chars_of(s);
    let n = cs.len();
    let mut count: usize = 0;
    let mut first: usize = n;
    let mut i: usize = 0;
    while i < n
        invariant
            n == cs@.len(),
            cs@ == s@,
            i <= n,
            count as nat == colon_count(cs@.subrange(0, i as int)),
            count <= i,
            count == 0 ==> first == n && forall|j: int| 0 <= j < i ==> cs@[j] != ':',
            count > 0 ==> first < i && cs@[first as int] == ':' && forall|j: int|
                0 <= j < first ==> cs@[j] != ':',
        decreases n - i,
    {
        proof {
            lemma_colon_count_step(cs@, i as int);
        }
        if cs[i] == ':' {
            if count == 0 {
                first = i;
            }
            count = count + 1;
        }
        i = i + 1;
    }
    assert(cs@.subrange(0, n as int) =~= cs@);
    if count != 1 {
        return Err(Error::ConfigParse(concat3("Invalid duration format '", s, "', expected MM:SS")));
    }
    proof {
        let c = colon_index(s@);
        assert(0 <= first < n && s@[first as int] == ':');
        if c != first as int {
            if c < first as int {
            } else {
                assert(s@[first as int] != ':');
            }
        }
    }
    let minutes = parse_u64(&cs, 0, first);
    let seconds = parse_u64(&cs, first + 1, n);
    match minutes {
        None => Err(Error::ConfigParse(concat3("Invalid minutes in duration '", s, "'"))),
        Some(m) => match seconds {
            None => Err(Error::ConfigParse(concat3("Invalid seconds in duration '", s, "'"))),
            Some(sec) => {
                if sec >= 60 {
                    Err(Error::ConfigParse(concat3("Seconds must be < 60 in duration '", s, "'")))
                } else if m > (u64::MAX - sec) / 60 {
                    proof {
                        assert(m * 60 + sec > u64::MAX) by (nonlinear_arith)
                            requires
                                m > (u64::MAX - sec) / 60,
                                sec < 60,
                        ;
                    }
                    Err(Error::ConfigParse(concat3("Duration too large in '", s, "'")))
                } else {
                    proof {
                        assert(m * 60 + sec <= u64::MAX) by (nonlinear_arith)
                            requires
                                m <= (u64::MAX - sec) / 60,
                                sec < 60,
                        ;
                    }
                    Ok(m * 60 + sec)
                }
            },
        },
    }
}

} // verus!
