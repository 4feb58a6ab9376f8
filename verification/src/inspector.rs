//! The Process Inspector: turns the text of an OS process listing into
//! the process IDs whose command lines mention a listen address, and the
//! text of a process-tree query into a direct child process ID.  The
//! listing itself is produced outside the library; the selection and
//! parsing are verified here.
//!
//! Addresses are matched as raw substrings against full command lines,
//! so callers must choose addresses specific enough to avoid collisions
//! with unrelated processes: always a full `host:port`, never a bare
//! port number.

use vstd::prelude::*;
use crate::num::{all_digits, digits_val, parse_usize};
use crate::text::{
    contains_str, spec_contains, spec_lines, spec_second_token, spec_trim, split_lines,
    second_token, trim_str,
};

verus! {

/// Why a process listing could not be read.
#[derive(Debug, PartialEq, Eq, Structural, Clone, Copy)]
pub enum InspectError {
    /// A selected line has no second whitespace-delimited column.
    MissingPidColumn,
    /// The PID column of a selected line is not a decimal number that
    /// fits a process ID.
    BadPidColumn,
}

/// The inspector selects a listing line when it mentions the address,
/// is not blank, and is not the matching command's own invocation.
pub open spec fn line_selected(line: Seq<char>, addr: Seq<char>) -> bool {
    &&& spec_contains(line, addr)
    &&& spec_trim(line).len() > 0
    &&& !spec_contains(spec_trim(line), "grep"@)
}

/// The process ID a selected line carries: its second whitespace-
/// delimited column, as a decimal number.
pub open spec fn spec_line_pid(line: Seq<char>) -> Result<int, InspectError> {
    match spec_second_token(spec_trim(line)) {
        None => Err(InspectError::MissingPidColumn),
        Some(tok) => if all_digits(tok) && digits_val(tok) <= usize::MAX {
            Ok(digits_val(tok))
        } else {
            Err(InspectError::BadPidColumn)
        },
    }
}

/// The process IDs of all selected lines, in listing order; the first
/// malformed selected line is a hard error.
pub open spec fn spec_pids(lines: Seq<Seq<char>>, addr: Seq<char>) -> Result<
    Seq<int>,
    InspectError,
>
    decreases lines.len(),
{
    if lines.len() == 0 {
        Ok(Seq::empty())
    } else if !line_selected(lines[0], addr) {
        spec_pids(lines.skip(1), addr)
    } else {
        match spec_line_pid(lines[0]) {
            Err(e) => Err(e),
            Ok(p) => match spec_pids(lines.skip(1), addr) {
                Err(e) => Err(e),
                Ok(rest) => Ok(seq![p] + rest),
            },
        }
    }
}

/// Prefix the IDs already collected onto what the remaining lines yield.
pub open spec fn combine(prefix: Seq<int>, rest: Result<Seq<int>, InspectError>) -> Result<
    Seq<int>,
    InspectError,
> {
    match rest {
        Ok(s) => Ok(prefix + s),
        Err(e) => Err(e),
    }
}

/// Extract from a process listing the IDs of the processes whose command
/// line contains `addr`, excluding the matcher's own invocation: for each
/// line that mentions `addr`, is not blank and does not mention `grep`,
/// its second whitespace-delimited column parsed as a decimal number.
pub fn get_pids(listing: &str, addr: &str) -> (r: Result<Vec<usize>, InspectError>)
    ensures
        match r {
            Ok(v) => spec_pids(spec_lines(listing@), addr@) == Ok::<_, InspectError>(
                v@.map_values(|p: usize| p as int),
            ),
            Err(e) => spec_pids(spec_lines(listing@), addr@) == Err::<Seq<int>, _>(e),
        },
{
    let lines = split_lines(listing);
    let ghost all = spec_lines(listing@);
    let mut res: Vec<usize> = Vec::new();
    let mut i: usize = 0;
    proof {
        assert(all.skip(0) =~= all);
        assert(res@.map_values(|p: usize| p as int) =~= Seq::<int>::empty());
        assert(spec_pids(all, addr@) == combine(
            res@.map_values(|p: usize| p as int),
            spec_pids(all.skip(0), addr@),
        ));
    }
    while i < lines.len()
        invariant
            i <= lines.len(),
            lines@.len() == all.len(),
            forall|k: int| 0 <= k < all.len() ==> lines@[k]@ == all[k],
            all == spec_lines(listing@),
            spec_pids(all, addr@) == combine(
                res@.map_values(|p: usize| p as int),
                spec_pids(all.skip(i as int), addr@),
            ),
        decreases lines.len() - i,
    {
        let line = lines[i];
        let ghost suf = all.skip(i as int);
        proof {
            assert(suf[0] == all[i as int]);
            assert(suf.skip(1) =~= all.skip(i + 1));
        }
        let trimmed = trim_str(line);
        let selected = contains_str(line, addr) && trimmed.unicode_len() > 0 && !contains_str(
            trimmed,
            "grep",
        );
        if selected {
            let tok_opt = second_token(trimmed);
            match tok_opt {
                None => {
                    proof {
                        assert(spec_line_pid(all[i as int]) == Err::<int, _>(
                            InspectError::MissingPidColumn,
                        ));
                        assert(spec_pids(suf, addr@) == Err::<Seq<int>, _>(
                            InspectError::MissingPidColumn,
                        ));
                    }
                    return Err(InspectError::MissingPidColumn);
                },
                Some(tok) => {
                    match parse_usize(tok) {
                        Ok(p) => {
                            let ghost prev = res@;
                            res.push(p);
                            proof {
                                assert(spec_line_pid(all[i as int]) == Ok::<int, InspectError>(
                                    p as int,
                                ));
                                assert(res@.map_values(|q: usize| q as int) =~= prev.map_values(
                                    |q: usize| q as int,
                                ) + seq![p as int]);
                                let rest = spec_pids(all.skip(i + 1), addr@);
                                assert(spec_pids(suf, addr@) == combine(seq![p as int], rest));
                                if rest is Ok {
                                    assert(prev.map_values(|q: usize| q as int) + (seq![p as int]
                                        + rest->Ok_0) =~= res@.map_values(|q: usize| q as int)
                                        + rest->Ok_0);
                                }
                            }
                        },
                        Err(_) => {
                            proof {
                                assert(spec_line_pid(all[i as int]) == Err::<int, _>(
                                    InspectError::BadPidColumn,
                                ));
                                assert(spec_pids(suf, addr@) == Err::<Seq<int>, _>(
                                    InspectError::BadPidColumn,
                                ));
                            }
                            return Err(InspectError::BadPidColumn);
                        },
                    }
                },
            }
        } else {
            proof {
                assert(!line_selected(all[i as int], addr@));
                assert(spec_pids(suf, addr@) == spec_pids(all.skip(i + 1), addr@));
            }
        }
        i += 1;
    }
    proof {
        assert(all.skip(all.len() as int) =~= Seq::<Seq<char>>::empty());
        assert(spec_pids(Seq::<Seq<char>>::empty(), addr@) == Ok::<_, InspectError>(
            Seq::<int>::empty(),
        ));
        assert(res@.map_values(|p: usize| p as int) + Seq::<int>::empty() =~= res@.map_values(
            |p: usize| p as int,
        ));
    }
    Ok(res)
}

/// Some listing line mentions `addr`, is not the matcher's own
/// invocation, and carries the process ID `p` in its PID column.
pub open spec fn pid_witnessed(lines: Seq<Seq<char>>, addr: Seq<char>, p: int) -> bool {
    exists|i: int|
        {
            &&& 0 <= i < lines.len()
            &&& spec_contains(#[trigger] lines[i], addr)
            &&& !spec_contains(spec_trim(lines[i]), "grep"@)
            &&& spec_line_pid(lines[i]) == Ok::<int, InspectError>(p)
        }
}

/// Soundness of the Process Inspector: every process ID it returns for an
/// address comes from a listing line that contains that address as a
/// substring and does not contain the matcher's own self-referential
/// invocation.
pub proof fn lemma_pids_sound(lines: Seq<Seq<char>>, addr: Seq<char>, pids: Seq<int>)
    requires
        spec_pids(lines, addr) == Ok::<_, InspectError>(pids),
    ensures
        forall|j: int| 0 <= j < pids.len() ==> pid_witnessed(lines, addr, #[trigger] pids[j]),
    decreases lines.len(),
{
    if lines.len() == 0 {
    } else {
        let tail = lines.skip(1);
        if !line_selected(lines[0], addr) {
            lemma_pids_sound(tail, addr, pids);
            assert forall|j: int| 0 <= j < pids.len() implies pid_witnessed(
                lines,
                addr,
                #[trigger] pids[j],
            ) by {
                lemma_pid_witness_extend(lines, tail, addr, pids[j]);
            }
        } else {
            let p = spec_line_pid(lines[0])->Ok_0;
            let rest = spec_pids(tail, addr)->Ok_0;
            assert(pids == seq![p] + rest);
            lemma_pids_sound(tail, addr, rest);
            assert forall|j: int| 0 <= j < pids.len() implies pid_witnessed(
                lines,
                addr,
                #[trigger] pids[j],
            ) by {
                if j == 0 {
                    assert(pids[0] == p);
                    assert(spec_contains(lines[0], addr));
                    assert(pid_witnessed(lines, addr, p));
                } else {
                    assert(pids[j] == rest[j - 1]);
                    lemma_pid_witness_extend(lines, tail, addr, rest[j - 1]);
                }
            }
        }
    }
}

/// A witness among the later lines is a witness among all the lines.
proof fn lemma_pid_witness_extend(lines: Seq<Seq<char>>, tail: Seq<Seq<char>>, addr: Seq<char>, p: int)
    requires
        lines.len() > 0,
        tail == lines.skip(1),
        pid_witnessed(tail, addr, p),
    ensures
        pid_witnessed(lines, addr, p),
{
    let i0 = choose|i: int|
        {
            &&& 0 <= i < tail.len()
            &&& spec_contains(#[trigger] tail[i], addr)
            &&& !spec_contains(spec_trim(tail[i]), "grep"@)
            &&& spec_line_pid(tail[i]) == Ok::<int, InspectError>(p)
        };
    assert(lines[i0 + 1] == tail[i0]);
    assert(spec_contains(lines[i0 + 1], addr));
}

/// What a process-tree query's output yields: the first line that is not
/// blank, parsed as a decimal process ID; 0 when every line is blank
/// ("no child" is a valid terminal state, not an error).
pub open spec fn spec_child_pid(lines: Seq<Seq<char>>) -> Result<int, InspectError>
    decreases lines.len(),
{
    if lines.len() == 0 {
        Ok(0)
    } else if spec_trim(lines[0]).len() == 0 {
        spec_child_pid(lines.skip(1))
    } else {
        let tok = spec_trim(lines[0]);
        if all_digits(tok) && digits_val(tok) <= usize::MAX {
            Ok(digits_val(tok))
        } else {
            Err(InspectError::BadPidColumn)
        }
    }
}

/// Resolve a direct child process ID from the output of the
/// process-tree query: the first non-blank line, parsed; 0 when none.
pub fn get_child_pid(listing: &str) -> (r: Result<usize, InspectError>)
    ensures
        match r {
            Ok(v) => spec_child_pid(spec_lines(listing@)) == Ok::<_, InspectError>(v as int),
            Err(e) => spec_child_pid(spec_lines(listing@)) == Err::<int, _>(e),
        },
{
    let lines = split_lines(listing);
    let ghost all = spec_lines(listing@);
    let mut i: usize = 0;
    proof {
        assert(all.skip(0) =~= all);
    }
    while i < lines.len()
        invariant
            i <= lines.len(),
            lines@.len() == all.len(),
            forall|k: int| 0 <= k < all.len() ==> lines@[k]@ == all[k],
            all == spec_lines(listing@),
            spec_child_pid(all) == spec_child_pid(all.skip(i as int)),
        decreases lines.len() - i,
    {
        let ghost suf = all.skip(i as int);
        proof {
            assert(suf[0] == all[i as int]);
            assert(suf.skip(1) =~= all.skip(i + 1));
        }
        let trimmed = trim_str(lines[i]);
        if trimmed.unicode_len() > 0 {
            match parse_usize(trimmed) {
                Ok(v) => {
                    return Ok(v);
                },
                Err(_) => {
                    return Err(InspectError::BadPidColumn);
                },
            }
        }
        i += 1;
    }
    proof {
        assert(all.skip(all.len() as int) =~= Seq::<Seq<char>>::empty());
    }
    Ok(0)
}

} // verus!
