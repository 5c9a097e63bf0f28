//! The host migration: installs the updater and its phase scripts, and points the node's
//! service unit at its start wrapper.
use vstd::prelude::*;
use crate::text::{chars_of, contains, contains_str};

verus! {

/// The `ExecStart=` line of a unit that starts the node through its wrapper.
pub const WRAPPER_EXEC: &'static str = "ExecStart=/home/pi/scripts/start-amaru.sh";

/// The key that starts a unit's command line.
pub const EXEC_KEY: &'static str = "ExecStart=";

pub const UPDATER_PATH: &'static str = "/home/pi/scripts/updater.sh";

pub const ACTIVATE_PATH: &'static str = "/home/pi/scripts/activate-update.sh";

pub const START_AMARU_PATH: &'static str = "/home/pi/scripts/start-amaru.sh";

/// Where the migration installs the updater that the two phase scripts run.
pub const UPDATER_BIN: &'static str = "/home/pi/bin/amaru-updater";

/// Runs the check phase.
pub const UPDATER_SCRIPT: &'static str = "#!/bin/bash
set -euo pipefail
exec /home/pi/bin/amaru-updater check \"$@\"
";

/// Runs the activation phase.
pub const ACTIVATE_SCRIPT: &'static str = "#!/bin/bash
set -euo pipefail
exec /home/pi/bin/amaru-updater activate \"$@\"
";

/// Starts the node with whichever sub-command its installed binary supports.
pub const START_AMARU_SCRIPT: &'static str = "#!/bin/bash
set -euo pipefail

# Older binaries have 'daemon', newer ones have 'run'.
BIN=\"/home/pi/bin/amaru\"

if [ ! -f \"$BIN\" ]; then
    echo \"ERROR: $BIN not found\"
    exit 1
fi

if \"$BIN\" --help 2>&1 | grep -q \"daemon\"; then
    exec \"$BIN\" daemon
else
    exec \"$BIN\" run
fi
";

/// A script to be written, executable, at `path`.
pub struct Script {
    pub path: String,
    pub content: String,
}

/// What the migration writes: the updater binary's place, its scripts and, where the unit
/// needs it, the patched unit.
pub struct Migration {
    pub updater_path: String,
    pub scripts: Vec<Script>,
    pub unit: Option<String>,
}

/// Whether `c` is white space, as Rust's `char::is_whitespace` decides it.
pub uninterp spec fn white_space(c: char) -> bool;

/// Relies on `char::is_whitespace`: whether the character has Unicode's White_Space property.
#[verifier::external_body]
fn is_white_space(c: char) -> (r: bool)
    ensures
        r == white_space(c),
{
    c.is_whitespace()
}

/// Which characters of `s` are white space.
pub open spec fn white_space_flags(s: Seq<char>) -> Seq<bool> {
    Seq::new(s.len(), |i: int| white_space(s[i]))
}

/// The position of the first line break at or after `i`, or the length of `s`.
pub open spec fn newline_from(s: Seq<char>, i: int) -> int
    decreases s.len() - i,
{
    if i < 0 || i >= s.len() {
        s.len() as int
    } else if s[i] == '\n' {
        i
    } else {
        newline_from(s, i + 1)
    }
}

/// Where the text of the line that starts at `i` and whose break is at `j` ends: a carriage
/// return right before the line feed belongs to the break.
pub open spec fn line_end(s: Seq<char>, i: int, j: int) -> int {
    if i < j < s.len() && s[j - 1] == '\r' {
        j - 1
    } else {
        j
    }
}

/// The position of the first character of `s[i..j]` that `ws` does not mark, or `j`.
pub open spec fn blanks_end(ws: Seq<bool>, i: int, j: int) -> int
    decreases j - i,
{
    if i < 0 || i >= j || i >= ws.len() || !ws[i] {
        i
    } else {
        blanks_end(ws, i + 1, j)
    }
}

/// The line `s[i..e]`, after its leading white space (as `ws` marks it), starts with
/// `ExecStart=`.
pub open spec fn is_exec_line(s: Seq<char>, ws: Seq<bool>, i: int, e: int) -> bool {
    let b = blanks_end(ws, i, e);
    b + EXEC_KEY@.len() <= e && s.subrange(b, b + EXEC_KEY@.len()) == EXEC_KEY@
}

/// The lines of `s` from position `i` on, each `ExecStart=` line replaced by the wrapper's,
/// joined by line feeds. Lines end at a line feed or a carriage return and line feed; a
/// final line break starts no further line.
pub open spec fn patched_from(s: Seq<char>, ws: Seq<bool>, i: int) -> Seq<char>
    decreases s.len() - i,
{
    if i < 0 || i >= s.len() {
        Seq::<char>::empty()
    } else {
        let j = newline_from(s, i);
        let e = line_end(s, i, j);
        let line = if is_exec_line(s, ws, i, e) {
            WRAPPER_EXEC@
        } else {
            s.subrange(i, e)
        };
        if i <= j && j + 1 < s.len() {
            line + seq!['\n'] + patched_from(s, ws, j + 1)
        } else {
            line
        }
    }
}

/// The unit `s` with every `ExecStart=` line replaced by the wrapper's.
pub open spec fn patched_unit(s: Seq<char>) -> Seq<char> {
    patched_from(s, white_space_flags(s), 0)
}

/// What the migration does to a unit: nothing where it is absent or already uses the
/// wrapper, otherwise its patched text.
pub open spec fn unit_update(unit: Option<Seq<char>>) -> Option<Seq<char>> {
    match unit {
        None => None,
        Some(u) => if contains(u, WRAPPER_EXEC@) { None } else { Some(patched_unit(u)) },
    }
}

fn exec_line(c: &Vec<char>, ws: &Vec<bool>, key: &Vec<char>, i: usize, e: usize) -> (r: bool)
    requires
        i <= e <= c@.len(),
        ws@.len() == c@.len(),
        key@ == EXEC_KEY@,
    ensures
        r == is_exec_line(c@, ws@, i as int, e as int),
{
    let mut b = i;
    while b < e && ws[b]
        invariant
            i <= b <= e <= c@.len(),
            ws@.len() == c@.len(),
            blanks_end(ws@, i as int, e as int) == blanks_end(ws@, b as int, e as int),
        decreases e - b,
    {
        b = b + 1;
    }
    assert(blanks_end(ws@, b as int, e as int) == b as int);
    let klen = key.len();
    if klen > e - b {
        assert(b + EXEC_KEY@.len() > e);
        assert(!is_exec_line(c@, ws@, i as int, e as int));
        return false;
    }
    let mut k: usize = 0;
    while k < klen
        invariant
            key@ == EXEC_KEY@,
            klen == key@.len(),
            b + klen <= e <= c@.len(),
            k <= klen,
            blanks_end(ws@, i as int, e as int) == b,
            forall|m: int| 0 <= m < k ==> c@[b + m] == key@[m],
        decreases klen - k,
    {
        if c[b + k] != key[k] {
            assert(c@.subrange(b as int, b + klen)[k as int] != key@[k as int]);
            return false;
        }
        k = k + 1;
    }
    assert(c@.subrange(b as int, b + klen) =~= key@);
    true
}

/// The unit `content` with every `ExecStart=` line replaced by the wrapper's, where `ws`
/// marks which characters of `content` are white space.
pub fn patch_unit_with(content: &String, ws: &Vec<bool>) -> (r: String)
    requires
        ws@.len() == content@.len(),
    ensures
        r@ == patched_from(content@, ws@, 0),
{
    let c = chars_of(content.as_str());
    let key = chars_of(EXEC_KEY);
    let n = c.len();
    let mut out = String::new();
    let mut start: usize = 0;
    while start < n
        invariant
            c@ == content@,
            ws@.len() == c@.len(),
            key@ == EXEC_KEY@,
            n == c@.len(),
            start <= n,
            out@ + patched_from(c@, ws@, start as int) == patched_from(c@, ws@, 0),
        decreases n - start,
    {
        let mut j = start;
        while j < n && c[j] != '\n'
            invariant
                n == c@.len(),
                start <= j <= n,
                newline_from(c@, start as int) == newline_from(c@, j as int),
            decreases n - j,
        {
            j = j + 1;
        }
        assert(newline_from(c@, start as int) == j);
        let e = if start < j && j < n && c[j - 1] == '\r' {
            j - 1
        } else {
            j
        };
        assert(e == line_end(c@, start as int, j as int));
        let is_exec = exec_line(&c, ws, &key, start, e);
        let ghost line = if is_exec {
            WRAPPER_EXEC@
        } else {
            c@.subrange(start as int, e as int)
        };
        let ghost before = out@;
        if is_exec {
            out.append(WRAPPER_EXEC);
        } else {
            out.append(content.as_str().substring_char(start, e));
        }
        if j < n && n - j > 1 {
            assert(patched_from(c@, ws@, start as int) == line + seq!['\n'] + patched_from(c@, ws@, j + 1));
            out.append("\n");
            proof {
                reveal_strlit("\n");
                assert(out@ + patched_from(c@, ws@, j + 1) =~= before + (line + seq!['\n']
                    + patched_from(c@, ws@, j + 1)));
            }
            start = j + 1;
        } else {
            assert(patched_from(c@, ws@, start as int) == line);
            assert(out@ + patched_from(c@, ws@, n as int) =~= before + line);
            start = n;
        }
    }
    assert(out@ =~= out@ + patched_from(c@, ws@, start as int));
    out
}

/// The unit `content` with every `ExecStart=` line replaced by the wrapper's.
pub fn patch_unit(content: &String) -> (r: String)
    ensures
        r@ == patched_unit(content@),
{
    let c = chars_of(content.as_str());
    let mut ws: Vec<bool> = Vec::new();
    let mut i: usize = 0;
    while i < c.len()
        invariant
            c@ == content@,
            i <= c@.len(),
            ws@ == white_space_flags(c@).subrange(0, i as int),
        decreases c@.len() - i,
    {
        ws.push(is_white_space(c[i]));
        i = i + 1;
    }
    assert(ws@ =~= white_space_flags(content@));
    patch_unit_with(content, &ws)
}

/// What the migration writes: the three scripts, and the node's unit, patched, where
/// `unit` holds its current text and it does not use the wrapper yet. The updater binary
/// that the phase scripts run is installed at `updater_path`.
pub fn run(unit: Option<String>) -> (r: Migration)
    ensures
        r.updater_path@ == UPDATER_BIN@,
        r.scripts@.len() == 3,
        r.scripts@[0].path@ == UPDATER_PATH@,
        r.scripts@[0].content@ == UPDATER_SCRIPT@,
        r.scripts@[1].path@ == ACTIVATE_PATH@,
        r.scripts@[1].content@ == ACTIVATE_SCRIPT@,
        r.scripts@[2].path@ == START_AMARU_PATH@,
        r.scripts@[2].content@ == START_AMARU_SCRIPT@,
        match r.unit {
            Some(u) => unit_update(
                match unit {
                    Some(t) => Some(t@),
                    None => None,
                },
            ) == Some(u@),
            None => unit_update(
                match unit {
                    Some(t) => Some(t@),
                    None => None,
                },
            ) is None,
        },
{
    let mut scripts: Vec<Script> = Vec::new();
    scripts.push(Script { path: String::from_str(UPDATER_PATH), content: String::from_str(UPDATER_SCRIPT) });
    scripts.push(Script { path: String::from_str(ACTIVATE_PATH), content: String::from_str(ACTIVATE_SCRIPT) });
    scripts.push(Script { path: String::from_str(START_AMARU_PATH), content: String::from_str(START_AMARU_SCRIPT) });
    let unit = match unit {
        None => None,
        Some(u) => if contains_str(u.as_str(), WRAPPER_EXEC) { None } else { Some(patch_unit(&u)) },
    };
    Migration { updater_path: String::from_str(UPDATER_BIN), scripts, unit }
}

} // verus!
