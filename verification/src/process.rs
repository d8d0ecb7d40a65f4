//! Background processes: pid files, and the pids that listen on a port as `lsof` and
//! `netstat` report them.
use vstd::prelude::*;

use crate::text::{
    chars_of, contains_chars, decimal, decimal_chars, has_infix, has_suffix, is_suffix,
    law_decimal_round_trip, parse_u32_chars, parse_u32_spec, split_on, split_on_char,
    trim_chars, trim_seq, u64_to_string, words, words_of,
};

verus! {

/// The name of the file that records the pid of the process started under `key`.
pub fn pid_file_name(key: &str) -> (s: String)
    ensures
        s@ == "process_"@ + key@ + ".pid"@,
{
    crate::error::join3("process_", key, ".pid")
}

/// The pid recorded in a pid file: its trimmed text as a `u32`.
pub fn parse_pid_file(content: &str) -> (r: Option<u32>)
    ensures
        r == parse_u32_spec(trim_seq(content@)),
{
    let v = chars_of(content);
    let t = trim_chars(&v);
    parse_u32_chars(&t)
}

/// What a pid file holds for `pid`: its decimal text.
pub fn pid_file_content(pid: u32) -> (s: String)
    ensures
        s@ == decimal(pid as nat),
{
    u64_to_string(pid as u64)
}

/// A pid written to a pid file is the pid read back from it.
pub proof fn law_pid_file_round_trip(pid: u32)
    ensures
        parse_u32_spec(trim_seq(decimal(pid as nat))) == Some(pid),
{
    law_decimal_round_trip(pid as u64);
}

/// The values that are present, in order.
pub open spec fn present(s: Seq<Option<u32>>) -> Seq<u32>
    decreases s.len(),
{
    if s.len() == 0 {
        Seq::empty()
    } else {
        let r = present(s.drop_last());
        match s.last() {
            Some(v) => r.push(v),
            None => r,
        }
    }
}

/// The pids that `lsof -t` printed: every line that, trimmed, is a `u32` (a line's
/// trailing `\r` and a final empty line change nothing here, being blank once trimmed).
pub open spec fn lsof_pids(out: Seq<char>) -> Seq<u32> {
    present(split_on(out, '\n').map_values(|l: Seq<char>| parse_u32_spec(trim_seq(l))))
}

/// The pids in `lsof -t` output, in order.
pub fn pids_from_lsof(output: &str) -> (pids: Vec<u32>)
    ensures
        pids@ == lsof_pids(output@),
{
    let v = chars_of(output);
    let lines = split_on_char(&v, '\n');
    let ghost all = split_on(output@, '\n').map_values(|l: Seq<char>| parse_u32_spec(trim_seq(l)));
    let mut pids: Vec<u32> = Vec::new();
    let mut i: usize = 0;
    while i < lines.len()
        invariant
            i <= lines.len(),
            lines@.map_values(|p: Vec<char>| p@) == split_on(output@, '\n'),
            all == split_on(output@, '\n').map_values(|l: Seq<char>| parse_u32_spec(trim_seq(l))),
            pids@ == present(all.take(i as int)),
        decreases lines.len() - i,
    {
        assert(all.take(i + 1).drop_last() =~= all.take(i as int));
        assert(lines@[i as int]@ == split_on(output@, '\n')[i as int]);
        let t = trim_chars(&lines[i]);
        match parse_u32_chars(&t) {
            Some(pid) => pids.push(pid),
            None => {},
        }
        i = i + 1;
    }
    assert(all.take(lines.len() as int) =~= all);
    pids
}

/// The pid that a `netstat -ano` line names for `port`: a line of at least `min_fields`
/// words whose second word (the local address) ends with `:<port>` and whose last word is
/// a `u32` (not 0 when `positive` is asked for).
pub open spec fn netstat_line_pid(line: Seq<char>, port: u64, min_fields: nat, positive: bool) -> Option<u32> {
    let parts = words(line);
    if parts.len() >= min_fields && parts.len() >= 2 && is_suffix(
        seq![':'] + decimal(port as nat),
        parts[1],
    ) {
        match parse_u32_spec(parts.last()) {
            Some(pid) => if positive && pid == 0 {
                None
            } else {
                Some(pid)
            },
            None => None,
        }
    } else {
        None
    }
}

/// The pids that `netstat -ano` output names for `port`, in order.
pub open spec fn netstat_pids(out: Seq<char>, port: u64, min_fields: nat, positive: bool) -> Seq<u32> {
    present(split_on(out, '\n').map_values(|l: Seq<char>| netstat_line_pid(l, port, min_fields, positive)))
}

fn netstat_line(line: &Vec<char>, port_suffix: &Vec<char>, port: u64, min_fields: usize, positive: bool) -> (r: Option<u32>)
    requires
        port_suffix@ == seq![':'] + decimal(port as nat),
    ensures
        r == netstat_line_pid(line@, port, min_fields as nat, positive),
{
    let parts = words_of(line);
    assert(parts@.map_values(|p: Vec<char>| p@).len() == parts@.len());
    if parts.len() >= min_fields && parts.len() >= 2 {
        assert(parts@.map_values(|p: Vec<char>| p@)[1] == parts@[1]@);
        if has_suffix(&parts[1], port_suffix) {
            let last = parts.len() - 1;
            assert(parts@.map_values(|p: Vec<char>| p@)[last as int] == parts@[last as int]@);
            match parse_u32_chars(&parts[last]) {
                Some(pid) => {
                    if positive && pid == 0 {
                        return None;
                    }
                    return Some(pid);
                },
                None => {
                    return None;
                },
            }
        }
    }
    None
}

/// The pids in `netstat -ano` output that listen on `port`, in order.
pub fn pids_from_netstat(output: &str, port: u64, min_fields: usize, positive: bool) -> (pids: Vec<u32>)
    ensures
        pids@ == netstat_pids(output@, port, min_fields as nat, positive),
{
    let v = chars_of(output);
    let lines = split_on_char(&v, '\n');
    let mut suffix: Vec<char> = Vec::new();
    suffix.push(':');
    let d = decimal_chars(port);
    crate::text::append_chars(&mut suffix, &d);
    assert(suffix@ =~= seq![':'] + decimal(port as nat));
    let ghost all = split_on(output@, '\n').map_values(
        |l: Seq<char>| netstat_line_pid(l, port, min_fields as nat, positive),
    );
    let mut pids: Vec<u32> = Vec::new();
    let mut i: usize = 0;
    while i < lines.len()
        invariant
            i <= lines.len(),
            suffix@ == seq![':'] + decimal(port as nat),
            lines@.map_values(|p: Vec<char>| p@) == split_on(output@, '\n'),
            all == split_on(output@, '\n').map_values(
                |l: Seq<char>| netstat_line_pid(l, port, min_fields as nat, positive),
            ),
            pids@ == present(all.take(i as int)),
        decreases lines.len() - i,
    {
        assert(all.take(i + 1).drop_last() =~= all.take(i as int));
        assert(lines@[i as int]@ == split_on(output@, '\n')[i as int]);
        match netstat_line(&lines[i], &suffix, port, min_fields, positive) {
            Some(pid) => pids.push(pid),
            None => {},
        }
        i = i + 1;
    }
    assert(all.take(lines.len() as int) =~= all);
    pids
}

/// `s` with each value kept only where it first occurs.
pub open spec fn first_occurrences(s: Seq<u32>) -> Seq<u32>
    decreases s.len(),
{
    if s.len() == 0 {
        Seq::empty()
    } else {
        let r = first_occurrences(s.drop_last());
        if r.contains(s.last()) {
            r
        } else {
            r.push(s.last())
        }
    }
}

/// The pids with each one kept once (the set of processes to stop).
pub fn distinct_pids(pids: &Vec<u32>) -> (r: Vec<u32>)
    ensures
        r@ == first_occurrences(pids@),
{
    let mut r: Vec<u32> = Vec::new();
    let mut i: usize = 0;
    while i < pids.len()
        invariant
            i <= pids.len(),
            r@ == first_occurrences(pids@.take(i as int)),
        decreases pids.len() - i,
    {
        assert(pids@.take(i + 1).drop_last() =~= pids@.take(i as int));
        let p = pids[i];
        let mut seen = false;
        let mut j: usize = 0;
        while j < r.len()
            invariant
                j <= r.len(),
                seen <==> exists|k: int| 0 <= k < j && r@[k] == p,
            decreases r.len() - j,
        {
            if r[j] == p {
                seen = true;
            }
            j = j + 1;
        }
        if !seen {
            r.push(p);
        }
        i = i + 1;
    }
    assert(pids@.take(pids.len() as int) =~= pids@);
    r
}

/// Each pid occurs once among the pids to stop, and they are exactly the pids named.
pub proof fn law_distinct_pids(s: Seq<u32>)
    ensures
        first_occurrences(s).no_duplicates(),
        forall|p: u32| first_occurrences(s).contains(p) <==> s.contains(p),
    decreases s.len(),
{
    if s.len() > 0 {
        law_distinct_pids(s.drop_last());
        let r = first_occurrences(s.drop_last());
        let d = s.drop_last();
        let f = first_occurrences(s);
        assert forall|p: u32| f.contains(p) <==> s.contains(p) by {
            if s.contains(p) {
                let k = choose|k: int| 0 <= k < s.len() && s[k] == p;
                if k < s.len() - 1 {
                    assert(d[k] == p);
                    assert(d.contains(p));
                    assert(r.contains(p));
                    let j = choose|j: int| 0 <= j < r.len() && r[j] == p;
                    assert(f[j] == p);
                } else if r.contains(p) {
                    let j = choose|j: int| 0 <= j < r.len() && r[j] == p;
                    assert(f[j] == p);
                } else {
                    assert(f[r.len() as int] == p);
                }
            }
            if f.contains(p) {
                let k = choose|k: int| 0 <= k < f.len() && f[k] == p;
                if k < r.len() {
                    assert(r[k] == p);
                    assert(r.contains(p));
                    assert(d.contains(p));
                    let j = choose|j: int| 0 <= j < d.len() && d[j] == p;
                    assert(s[j] == p);
                } else {
                    assert(s[s.len() - 1] == p);
                }
            }
        }
    }
}


/// The lowercase form of a text, as `str::to_lowercase` computes it.
pub uninterp spec fn lowercase(s: Seq<char>) -> Seq<char>;

/// Trusted: `str::to_lowercase` maps each character to its Unicode lowercase form; the
/// result depends on the text alone, and is named `lowercase` here without being spelled
/// out.
#[verifier::external_body]
fn lower_text(s: &str) -> (r: String)
    ensures
        r@ == lowercase(s@),
{
    s.to_lowercase()
}

/// A running process is the expected one: its name, or its executable's path (already in
/// lowercase), contains the expected name in lowercase.
pub fn names_process(name: &str, exe_lower: &str, expected_lower: &str) -> (r: bool)
    ensures
        r == (has_infix(name@, expected_lower@) || has_infix(exe_lower@, expected_lower@)),
{
    let e = chars_of(expected_lower);
    let n = chars_of(name);
    if contains_chars(&n, &e) {
        return true;
    }
    let x = chars_of(exe_lower);
    contains_chars(&x, &e)
}

/// Whether the process with this name and executable path is the one recorded under
/// `expected_name`, compared without regard to case on the path and the expected name.
pub fn process_matches(name: &str, exe_path: &str, expected_name: &str) -> (r: bool)
    ensures
        r == (has_infix(name@, lowercase(expected_name@)) || has_infix(
            lowercase(exe_path@),
            lowercase(expected_name@),
        )),
{
    let exe = lower_text(exe_path);
    let expected = lower_text(expected_name);
    names_process(name, exe.as_str(), expected.as_str())
}

} // verus!
