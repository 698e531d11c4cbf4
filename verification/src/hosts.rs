//! Rewriting the operating system's hosts file so the vendor's redirector
//! hostname resolves to the loopback address. Installing the redirect
//! first drops every line that already maps the vendor hostname, then
//! appends the loopback mapping; removing it drops those lines and keeps
//! everything else — comments, unrelated entries, spacing within kept
//! lines — untouched. A line maps the vendor hostname when, after
//! stripping any comment, its second whitespace-separated field (the
//! hostname field of an `address hostname` entry) equals the vendor
//! hostname exactly.
//!
//! These functions work on the file's bytes; reading and writing the file
//! itself is the caller's I/O.

use crate::text::{
    bytes_eq, contains_bytes, contains_seq, find_byte, find_first, join_bytes, join_with,
    lemma_filter_one, split_bytes, split_on, subrange_to_vec, tokens_bytes, tokens_of, trim_bytes,
    trim_spec,
};
use vstd::prelude::*;
use vstd::slice::slice_to_vec;
use vstd::string::StringSliceAdditionalSpecFns;

verus! {

/// The vendor hostname whose resolution is redirected.
pub open spec fn host_key() -> Seq<u8> {
    "winter15.gosredirector.ea.com".spec_bytes()
}

/// The line the redirect installs: the loopback address, one space, the
/// vendor hostname.
pub open spec fn host_line() -> Seq<u8> {
    "127.0.0.1 winter15.gosredirector.ea.com".spec_bytes()
}

/// A line of the hosts file survives the rewrite. Blank lines, comment
/// lines and lines that never mention the vendor hostname survive; a line
/// is dropped exactly when, after stripping any `#` comment, its second
/// whitespace-separated field equals the vendor hostname.
pub open spec fn keeps_line(l: Seq<u8>) -> bool {
    let t = trim_spec(l);
    if t.len() == 0 || t[0] == 35 || !contains_seq(t, host_key()) {
        true
    } else {
        let before = match find_first(t, 35) {
            Some(i) => trim_spec(t.take(i)),
            None => t,
        };
        if before.len() == 0 || !contains_seq(before, host_key()) {
            true
        } else {
            let toks = tokens_of(before);
            toks.len() < 2 || toks[1] != host_key()
        }
    }
}

/// Decides whether a hosts-file line survives the rewrite: `true` for
/// every line that does not map the vendor hostname.
pub fn filter_not_host_line(value: &[u8]) -> (r: bool)
    ensures
        r == keeps_line(value@),
{
    let key: &[u8] = "winter15.gosredirector.ea.com".as_bytes();
    let t = trim_bytes(value);
    if t.len() == 0 {
        return true;
    }
    if t[0] == 35 {
        return true;
    }
    if !contains_bytes(t, key) {
        return true;
    }
    let before: Vec<u8> = match find_byte(t, 35) {
        Some(i) => {
            let head = subrange_to_vec(t, 0, i);
            proof {
                assert(head@ == t@.take(i as int));
            }
            let trimmed = trim_bytes(head.as_slice());
            slice_to_vec(trimmed)
        },
        None => slice_to_vec(t),
    };
    if before.len() == 0 {
        return true;
    }
    if !contains_bytes(before.as_slice(), key) {
        return true;
    }
    let toks = tokens_bytes(before.as_slice());
    let ghost dv = toks.deep_view();
    proof {
        assert forall|k: int| 0 <= k < toks@.len() implies dv[k] == #[trigger] toks@[k]@ by {
            assert(dv[k] =~= toks@[k]@);
        }
    }
    if toks.len() < 2 {
        return true;
    }
    !bytes_eq(toks[1].as_slice(), key)
}

/// One line of the file, with a trailing carriage return stripped.
pub open spec fn strip_cr(l: Seq<u8>) -> Seq<u8> {
    if l.len() > 0 && l.last() == 13 {
        l.drop_last()
    } else {
        l
    }
}

/// The lines of the file: split at every line feed, a final empty segment
/// (from a trailing newline) dropped, and a carriage return at each
/// line's end stripped — so both LF and CRLF files are read alike.
pub open spec fn lines_of(s: Seq<u8>) -> Seq<Seq<u8>> {
    let raw = split_on(s, 10);
    let cut = if raw.last().len() == 0 {
        raw.drop_last()
    } else {
        raw
    };
    cut.map_values(|l: Seq<u8>| strip_cr(l))
}

/// Splits file contents into lines.
pub fn lines_bytes(s: &[u8]) -> (r: Vec<Vec<u8>>)
    ensures
        r.deep_view() == lines_of(s@),
{
    let mut parts = split_bytes(s, 10);
    let ghost raw = parts.deep_view();
    proof {
        crate::text::lemma_split_on_len(s@, 10);
        assert forall|k: int| 0 <= k < parts@.len() implies raw[k] == #[trigger] parts@[k]@ by {
            assert(raw[k] =~= parts@[k]@);
        }
    }
    let last_index = parts.len() - 1;
    let count: usize = if parts[last_index].len() == 0 {
        last_index
    } else {
        parts.len()
    };
    let ghost cut = if raw.last().len() == 0 {
        raw.drop_last()
    } else {
        raw
    };
    let mut out: Vec<Vec<u8>> = Vec::new();
    let mut j: usize = 0;
    while j < count
        invariant
            j <= count <= parts@.len(),
            count == cut.len(),
            forall|k: int| 0 <= k < count ==> cut[k] == #[trigger] parts@[k]@,
            out.deep_view() == cut.map_values(|l: Seq<u8>| strip_cr(l)).take(j as int),
        decreases count - j,
    {
        let p: &Vec<u8> = &parts[j];
        let n = p.len();
        let stripped: Vec<u8> = if n > 0 && p[n - 1] == 13 {
            subrange_to_vec(p.as_slice(), 0, n - 1)
        } else {
            subrange_to_vec(p.as_slice(), 0, n)
        };
        proof {
            assert(stripped@ =~= strip_cr(cut[j as int]));
        }
        let ghost sv = stripped@;
        out.push(stripped);
        proof {
            let mapped = cut.map_values(|l: Seq<u8>| strip_cr(l));
            assert(mapped[j as int] == strip_cr(cut[j as int]));
            assert(out.deep_view() =~~= mapped.take(j as int).push(sv));
            assert(mapped.take(j + 1) =~= mapped.take(j as int).push(mapped[j as int]));
            assert(out.deep_view() =~~= mapped.take(j + 1));
        }
        j = j + 1;
    }
    proof {
        let mapped = cut.map_values(|l: Seq<u8>| strip_cr(l));
        assert(mapped.take(count as int) =~= mapped);
    }
    out
}

/// The rewritten file with every line that maps the vendor hostname
/// removed: the kept lines joined with line feeds.
pub open spec fn remove_host_spec(s: Seq<u8>) -> Seq<u8> {
    join_with(lines_of(s).filter(|l: Seq<u8>| keeps_line(l)), 10)
}

/// The rewritten file with the redirect installed: the kept lines, then
/// the loopback mapping, joined with line feeds. Dropping old mappings
/// first makes the install idempotent.
pub open spec fn set_host_spec(s: Seq<u8>) -> Seq<u8> {
    join_with(lines_of(s).filter(|l: Seq<u8>| keeps_line(l)).push(host_line()), 10)
}

fn kept_lines(s: &[u8]) -> (r: Vec<Vec<u8>>)
    ensures
        r.deep_view() == lines_of(s@).filter(|l: Seq<u8>| keeps_line(l)),
{
    let ghost pred = |l: Seq<u8>| keeps_line(l);
    let lines = lines_bytes(s);
    let ghost dv = lines.deep_view();
    proof {
        assert forall|k: int| 0 <= k < lines@.len() implies dv[k] == #[trigger] lines@[k]@ by {
            assert(dv[k] =~= lines@[k]@);
        }
    }
    let mut out: Vec<Vec<u8>> = Vec::new();
    let mut j: usize = 0;
    while j < lines.len()
        invariant
            j <= lines@.len(),
            dv == lines.deep_view(),
            dv.len() == lines@.len(),
            forall|k: int| 0 <= k < lines@.len() ==> dv[k] == #[trigger] lines@[k]@,
            pred == (|l: Seq<u8>| keeps_line(l)),
            out.deep_view() == dv.take(j as int).filter(pred),
        decreases lines@.len() - j,
    {
        proof {
            assert(dv.take(j + 1).drop_last() =~= dv.take(j as int));
            assert(dv.take(j + 1).last() == dv[j as int]);
            lemma_filter_one(dv.take(j + 1), pred);
        }
        let line: &Vec<u8> = &lines[j];
        if filter_not_host_line(line.as_slice()) {
            out.push(slice_to_vec(line.as_slice()));
            proof {
                assert(out.deep_view() =~~= dv.take(j + 1).filter(pred));
            }
        }
        j = j + 1;
    }
    proof {
        assert(dv.take(dv.len() as int) =~= dv);
    }
    out
}

/// Rewrites hosts-file contents with every vendor-hostname mapping
/// removed; all other lines are kept in order and joined with line feeds.
pub fn remove_host_entry(contents: &[u8]) -> (r: Vec<u8>)
    ensures
        r@ == remove_host_spec(contents@),
{
    let kept = kept_lines(contents);
    join_bytes(&kept, 10)
}

/// Rewrites hosts-file contents with the redirect installed: old
/// vendor-hostname mappings removed, every other line kept in order, and
/// the loopback mapping appended as the last line.
pub fn set_host_entry(contents: &[u8]) -> (r: Vec<u8>)
    ensures
        r@ == set_host_spec(contents@),
{
    let mut kept = kept_lines(contents);
    let line: &[u8] = "127.0.0.1 winter15.gosredirector.ea.com".as_bytes();
    kept.push(slice_to_vec(line));
    proof {
        assert(kept.deep_view() =~~= lines_of(contents@).filter(|l: Seq<u8>| keeps_line(l)).push(
            host_line(),
        ));
    }
    join_bytes(&kept, 10)
}

/// What went wrong while rewriting the hosts file. The file work itself
/// happens at the caller; this is the shared taxonomy of its failures.
pub enum HostsError {
    /// The hosts file does not exist.
    FileMissing,
    /// The process lacks permission to read or change the file.
    PermissionsError,
    /// Reading the file failed for another reason.
    ReadFailure,
    /// Writing the file failed for another reason.
    WriteFailure,
    /// The file held bytes that are not valid UTF-8 text.
    NonUtf8,
}

impl HostsError {
    /// A short description of the failure for the operator.
    pub fn message(&self) -> (r: &'static str)
        ensures
            match self {
                HostsError::FileMissing => r@ == "Missing hosts file"@,
                HostsError::PermissionsError => r@
                    == "Missing permission to modify hosts file. Ensure this program is running as admin"@,
                HostsError::ReadFailure => r@ == "Failed to read hosts file"@,
                HostsError::WriteFailure => r@ == "Failed to write hosts file"@,
                HostsError::NonUtf8 => r@
                    == "Hosts file contained non-utf8 characters so could not be parsed."@,
            },
    {
        match self {
            HostsError::FileMissing => "Missing hosts file",
            HostsError::PermissionsError => "Missing permission to modify hosts file. Ensure this program is running as admin",
            HostsError::ReadFailure => "Failed to read hosts file",
            HostsError::WriteFailure => "Failed to write hosts file",
            HostsError::NonUtf8 => "Hosts file contained non-utf8 characters so could not be parsed.",
        }
    }
}

} // verus!
