//! Per-process detail reconciliation.
//!
//! A platform side-channel may supply authoritative priority/nice and
//! virtual/resident memory per pid.  These functions merge that map with
//! the primary sample: a missing entry falls back to the primary values
//! (for memory) or to `"?"` sentinels (for priority), never to an error.

use vstd::prelude::*;
use std::collections::HashMap;

verus! {

broadcast use vstd::std_specs::hash::group_hash_axioms;

/// Scheduling priority and niceness for one process, as display strings.
#[derive(Debug, Clone, PartialEq, Eq)]
pub struct ProcessPriority {
    pub priority: String,
    pub nice: String,
}

/// Virtual and resident memory for one process, in KB.
#[derive(Debug, Clone, Copy, PartialEq, Eq)]
pub struct ProcessMemory {
    pub virtual_memory: u64,
    pub resident_memory: u64,
}

/// The priority map a platform without a side-channel reports: empty, so
/// every lookup falls back.
pub fn fetch_priority_map() -> (m: HashMap<u32, ProcessPriority>)
    ensures
        m@ == Map::<u32, ProcessPriority>::empty(),
{
    HashMap::new()
}

/// The memory map a platform without a side-channel reports: empty, so
/// every lookup falls back to the primary sample.
pub fn fetch_memory_map() -> (m: HashMap<u32, ProcessMemory>)
    ensures
        m@ == Map::<u32, ProcessMemory>::empty(),
{
    HashMap::new()
}

/// Priority/nice for `pid`: the side-channel's entry when it has one,
/// `"?"` sentinels otherwise.
pub fn get_process_priority(pid: u32, priority_map: &HashMap<u32, ProcessPriority>) -> (r:
    ProcessPriority)
    ensures
        priority_map@.contains_key(pid) ==> r.priority@ == priority_map@[pid].priority@
            && r.nice@ == priority_map@[pid].nice@,
        !priority_map@.contains_key(pid) ==> r.priority@ == seq!['?'] && r.nice@ == seq!['?'],
{
    match priority_map.get(&pid) {
        Some(p) => ProcessPriority { priority: p.priority.clone(), nice: p.nice.clone() },
        None => {
            let mut q: Vec<char> = Vec::new();
            q.push('?');
            let priority = crate::helpers::chars_to_string(&q);
            let nice = crate::helpers::chars_to_string(&q);
            assert(q@ =~= seq!['?']);
            ProcessPriority { priority, nice }
        },
    }
}

/// Virtual/resident memory for `pid`: the side-channel's entry when it has
/// one, the primary sample's fallback values otherwise.
pub fn get_process_memory(
    pid: u32,
    memory_map: &HashMap<u32, ProcessMemory>,
    fallback_virt: u64,
    fallback_res: u64,
) -> (r: ProcessMemory)
    ensures
        memory_map@.contains_key(pid) ==> r == memory_map@[pid],
        !memory_map@.contains_key(pid) ==> r == (ProcessMemory {
            virtual_memory: fallback_virt,
            resident_memory: fallback_res,
        }),
{
    match memory_map.get(&pid) {
        Some(m) => ProcessMemory { virtual_memory: m.virtual_memory, resident_memory: m.resident_memory },
        None => ProcessMemory { virtual_memory: fallback_virt, resident_memory: fallback_res },
    }
}

/// Whitespace that separates fields within a row (newlines separate rows
/// and are handled apart).
pub open spec fn is_space(b: u8) -> bool {
    b == 32 || b == 9 || b == 13 || b == 11 || b == 12
}

/// An ASCII decimal digit.
pub open spec fn is_digit(b: u8) -> bool {
    48 <= b <= 57
}

/// The first index at or after `from` holding a non-space byte (or the end).
pub open spec fn tok_start(s: Seq<u8>, from: nat) -> nat
    decreases s.len() - from,
{
    if from < s.len() && is_space(s[from as int]) {
        tok_start(s, from + 1)
    } else {
        from
    }
}

/// The first index at or after `from` holding a space byte (or the end).
pub open spec fn tok_end(s: Seq<u8>, from: nat) -> nat
    decreases s.len() - from,
{
    if from < s.len() && !is_space(s[from as int]) {
        tok_end(s, from + 1)
    } else {
        from
    }
}

/// The first index at or after `from` holding a newline (or the end).
pub open spec fn line_end(s: Seq<u8>, from: nat) -> nat
    decreases s.len() - from,
{
    if from < s.len() && s[from as int] != 10 {
        line_end(s, from + 1)
    } else {
        from
    }
}

pub proof fn lemma_line_end_bounds(s: Seq<u8>, from: nat)
    requires
        from <= s.len(),
    ensures
        from <= line_end(s, from) <= s.len(),
    decreases s.len() - from,
{
    if from < s.len() && s[from as int] != 10 {
        lemma_line_end_bounds(s, from + 1);
    }
}

fn is_space_byte(b: u8) -> (r: bool)
    ensures
        r == is_space(b),
{
    b == 32 || b == 9 || b == 13 || b == 11 || b == 12
}

fn skip_spaces(line: &Vec<u8>, from: usize) -> (r: usize)
    requires
        from <= line@.len(),
    ensures
        r as nat == tok_start(line@, from as nat),
        from <= r <= line@.len(),
{
    let mut i = from;
    while i < line.len() && is_space_byte(line[i])
        invariant
            from <= i <= line@.len(),
            tok_start(line@, from as nat) == tok_start(line@, i as nat),
        decreases line@.len() - i,
    {
        i = i + 1;
    }
    i
}

fn scan_token_end(line: &Vec<u8>, from: usize) -> (r: usize)
    requires
        from <= line@.len(),
    ensures
        r as nat == tok_end(line@, from as nat),
        from <= r <= line@.len(),
{
    let mut i = from;
    while i < line.len() && !is_space_byte(line[i])
        invariant
            from <= i <= line@.len(),
            tok_end(line@, from as nat) == tok_end(line@, i as nat),
        decreases line@.len() - i,
    {
        i = i + 1;
    }
    i
}

fn find_line_end(s: &Vec<u8>, from: usize) -> (r: usize)
    requires
        from <= s@.len(),
    ensures
        r as nat == line_end(s@, from as nat),
        from <= r <= s@.len(),
{
    let mut i = from;
    while i < s.len() && s[i] != 10
        invariant
            from <= i <= s@.len(),
            line_end(s@, from as nat) == line_end(s@, i as nat),
        decreases s@.len() - i,
    {
        i = i + 1;
    }
    i
}

fn copy_range(s: &Vec<u8>, start: usize, end: usize) -> (out: Vec<u8>)
    requires
        start <= end <= s@.len(),
    ensures
        out@ == s@.subrange(start as int, end as int),
{
    let mut out: Vec<u8> = Vec::new();
    let mut i = start;
    while i < end
        invariant
            start <= i <= end <= s@.len(),
            out@ == s@.subrange(start as int, i as int),
        decreases end - i,
    {
        out.push(s[i]);
        i = i + 1;
        assert(out@ =~= s@.subrange(start as int, i as int));
    }
    out
}

/// The bytes of a token read as characters, one per byte.
pub open spec fn spec_token_chars(t: Seq<u8>) -> Seq<char> {
    t.map_values(|b: u8| b as char)
}

fn token_string(line: &Vec<u8>, start: usize, end: usize) -> (s: String)
    requires
        start <= end <= line@.len(),
    ensures
        s@ == spec_token_chars(line@.subrange(start as int, end as int)),
{
    let mut chars: Vec<char> = Vec::new();
    let mut i = start;
    while i < end
        invariant
            start <= i <= end <= line@.len(),
            chars@ == spec_token_chars(line@.subrange(start as int, i as int)),
        decreases end - i,
    {
        chars.push(line[i] as char);
        i = i + 1;
        assert(chars@ =~= spec_token_chars(line@.subrange(start as int, i as int)));
    }
    crate::helpers::chars_to_string(&chars)
}

/// The digits of a numeric token, past an optional leading `'+'`.
pub open spec fn spec_number_digits(t: Seq<u8>) -> Seq<u8> {
    if t.len() > 0 && t[0] == 43 {
        t.drop_first()
    } else {
        t
    }
}

/// Whether a token is a well-formed unsigned decimal number: an optional
/// `'+'`, then at least one digit and nothing else.
pub open spec fn spec_valid_number(t: Seq<u8>) -> bool {
    let d = spec_number_digits(t);
    d.len() > 0 && forall|i: int| 0 <= i < d.len() ==> is_digit(#[trigger] d[i])
}

/// The value of a digit string.
pub open spec fn spec_digits_value(d: Seq<u8>) -> nat
    decreases d.len(),
{
    if d.len() == 0 {
        0
    } else {
        spec_digits_value(d.drop_last()) * 10 + (d.last() - 48) as nat
    }
}

/// What parsing a token as a `u64` yields: its value when the token is a
/// well-formed number that fits, nothing otherwise.
pub open spec fn spec_parse_u64(t: Seq<u8>) -> Option<u64> {
    if spec_valid_number(t) && spec_digits_value(spec_number_digits(t)) <= u64::MAX {
        Some(spec_digits_value(spec_number_digits(t)) as u64)
    } else {
        None
    }
}

/// What parsing a token as a `u32` yields.
pub open spec fn spec_parse_u32(t: Seq<u8>) -> Option<u32> {
    if spec_valid_number(t) && spec_digits_value(spec_number_digits(t)) <= u32::MAX {
        Some(spec_digits_value(spec_number_digits(t)) as u32)
    } else {
        None
    }
}

/// Law: appending a digit never shrinks a number's value.
proof fn lemma_digits_value_grows(d: Seq<u8>)
    requires
        d.len() > 0,
    ensures
        spec_digits_value(d) >= spec_digits_value(d.drop_last()),
{
}

/// Parse the bytes `line[start..end]` as an unsigned decimal `u64`.
fn parse_u64_range(line: &Vec<u8>, start: usize, end: usize) -> (r: Option<u64>)
    requires
        start <= end <= line@.len(),
    ensures
        r == spec_parse_u64(line@.subrange(start as int, end as int)),
{
    let ghost t = line@.subrange(start as int, end as int);
    let mut i = start;
    if i < end && line[i] == 43 {
        i = i + 1;
    }
    let ghost d = spec_number_digits(t);
    proof {
        assert(d =~= line@.subrange(i as int, end as int));
    }
    if i == end {
        assert(!spec_valid_number(t));
        return None;
    }
    let mut acc: u128 = 0;
    let mut too_big = false;
    let mut j = i;
    while j < end
        invariant
            i <= j <= end <= line@.len(),
            start <= i,
            t == line@.subrange(start as int, end as int),
            d == spec_number_digits(t),
            d == line@.subrange(i as int, end as int),
            forall|k: int| 0 <= k < j - i ==> is_digit(#[trigger] d[k]),
            !too_big ==> acc as nat == spec_digits_value(d.take(j - i)) && acc <= u64::MAX,
            too_big ==> spec_digits_value(d.take(j - i)) > u64::MAX,
        decreases end - j,
    {
        let b = line[j];
        if b < 48 || b > 57 {
            proof {
                assert(d[j - i] == line@[j as int]);
                assert(!is_digit(d[j - i]));
                assert(spec_number_digits(t) == d);
                assert(0 <= j - i < spec_number_digits(t).len());
                assert(!is_digit(spec_number_digits(t)[j - i]));
                assert(!spec_valid_number(t));
            }
            return None;
        }
        proof {
            assert(d.take(j - i + 1).drop_last() =~= d.take(j - i));
            assert(d.take(j - i + 1).last() == d[j - i]);
            assert(d[j - i] == line@[j as int]);
        }
        if !too_big {
            acc = acc * 10 + ((b - 48) as u128);
            if acc > 0xffff_ffff_ffff_ffff {
                too_big = true;
            }
        } else {
            proof {
                lemma_digits_value_grows(d.take(j - i + 1));
                assert(spec_digits_value(d.take(j - i + 1)) >= spec_digits_value(d.take(j - i)))
                ;
            }
        }
        j = j + 1;
    }
    proof {
        assert(d.take(end - i) =~= d);
        assert(spec_valid_number(t));
    }
    if too_big {
        None
    } else {
        Some(acc as u64)
    }
}

/// Parse the bytes `line[start..end]` as an unsigned decimal `u32`.
fn parse_u32_range(line: &Vec<u8>, start: usize, end: usize) -> (r: Option<u32>)
    requires
        start <= end <= line@.len(),
    ensures
        r == spec_parse_u32(line@.subrange(start as int, end as int)),
{
    match parse_u64_range(line, start, end) {
        Some(v) => {
            if v <= 0xffff_ffff {
                Some(v as u32)
            } else {
                None
            }
        },
        None => None,
    }
}

/// What one row of the priority listing contributes: a pid and its
/// priority and nice fields, when the row has at least three fields and
/// the first parses as a pid; nothing otherwise.
pub open spec fn spec_priority_entry(line: Seq<u8>) -> Option<(u32, Seq<char>, Seq<char>)> {
    let s1 = tok_start(line, 0);
    let e1 = tok_end(line, s1);
    let s2 = tok_start(line, e1);
    let e2 = tok_end(line, s2);
    let s3 = tok_start(line, e2);
    let e3 = tok_end(line, s3);
    if s3 < line.len() {
        match spec_parse_u32(line.subrange(s1 as int, e1 as int)) {
            Some(pid) => Some(
                (
                    pid,
                    spec_token_chars(line.subrange(s2 as int, e2 as int)),
                    spec_token_chars(line.subrange(s3 as int, e3 as int)),
                ),
            ),
            None => None,
        }
    } else {
        None
    }
}

/// The priority entries of the rows from byte `from` on, one row per
/// line, later rows winning on a repeated pid; malformed rows are skipped.
pub open spec fn spec_priority_fold(s: Seq<u8>, from: nat) -> Map<u32, (Seq<char>, Seq<char>)>
    decreases s.len() + 1 - from,
        via spec_priority_fold_decreases
{
    if from >= s.len() {
        Map::empty()
    } else {
        let e = line_end(s, from);
        let rest = spec_priority_fold(s, e + 1);
        match spec_priority_entry(s.subrange(from as int, e as int)) {
            Some(entry) => if rest.contains_key(entry.0) {
                rest
            } else {
                rest.insert(entry.0, (entry.1, entry.2))
            },
            None => rest,
        }
    }
}

#[via_fn]
proof fn spec_priority_fold_decreases(s: Seq<u8>, from: nat) {
    if from < s.len() {
        lemma_line_end_bounds(s, from);
    }
}

/// The priority map encoded by a listing: its rows after the header line.
pub open spec fn spec_priority_map(s: Seq<u8>) -> Map<u32, (Seq<char>, Seq<char>)> {
    spec_priority_fold(s, line_end(s, 0) + 1)
}

fn parse_priority_line(line: &Vec<u8>) -> (r: Option<(u32, String, String)>)
    ensures
        ({
            let e = spec_priority_entry(line@);
            match r {
                Some(v) => e == Some((v.0, v.1@, v.2@)),
                None => e is None,
            }
        }),
{
    let s1 = skip_spaces(line, 0);
    let e1 = scan_token_end(line, s1);
    let s2 = skip_spaces(line, e1);
    let e2 = scan_token_end(line, s2);
    let s3 = skip_spaces(line, e2);
    let e3 = scan_token_end(line, s3);
    if s3 < line.len() {
        match parse_u32_range(line, s1, e1) {
            Some(pid) => Some((pid, token_string(line, s2, e2), token_string(line, s3, e3))),
            None => None,
        }
    } else {
        None
    }
}

/// Parse a priority listing (pid, priority, nice columns under a header
/// row) into a map from pid to its priority and nice display fields.
/// Malformed rows are skipped; a later row wins on a repeated pid.
pub fn parse_priority_rows(output: &Vec<u8>) -> (m: HashMap<u32, ProcessPriority>)
    ensures
        forall|pid: u32|
            m@.contains_key(pid) <==> spec_priority_map(output@).contains_key(pid),
        forall|pid: u32|
            #[trigger] m@.contains_key(pid) ==> m@[pid].priority@ == spec_priority_map(
                output@,
            )[pid].0 && m@[pid].nice@ == spec_priority_map(output@)[pid].1,
{
    let mut m: HashMap<u32, ProcessPriority> = HashMap::new();
    let ghost mut gm = Map::<u32, (Seq<char>, Seq<char>)>::empty();
    let n = output.len();
    let header_end = find_line_end(output, 0);
    let pos0: usize = if header_end < n {
        header_end + 1
    } else {
        n
    };
    proof {
        if header_end >= n {
            assert(spec_priority_fold(output@, (header_end + 1) as nat) =~= Map::empty());
            assert(spec_priority_fold(output@, n as nat) =~= Map::empty());
        }
        assert(spec_priority_map(output@) =~= gm.union_prefer_right(
            spec_priority_fold(output@, pos0 as nat),
        ));
    }
    let mut pos = pos0;
    while pos < n
        invariant
            pos <= n,
            n == output@.len(),
            spec_priority_map(output@) == gm.union_prefer_right(
                spec_priority_fold(output@, pos as nat),
            ),
            forall|pid: u32| m@.contains_key(pid) <==> gm.contains_key(pid),
            forall|pid: u32|
                #[trigger] m@.contains_key(pid) ==> m@[pid].priority@ == gm[pid].0
                    && m@[pid].nice@ == gm[pid].1,
        decreases n - pos,
    {
        let e = find_line_end(output, pos);
        let line = copy_range(output, pos, e);
        let ghost rest = spec_priority_fold(output@, (e + 1) as nat);
        match parse_priority_line(&line) {
            Some((pid, priority, nice)) => {
                let ghost pv = priority@;
                let ghost nv = nice@;
                m.insert(pid, ProcessPriority { priority, nice });
                proof {
                    let old_gm = gm;
                    gm = gm.insert(pid, (pv, nv));
                    assert(gm.union_prefer_right(rest) =~= old_gm.union_prefer_right(
                        spec_priority_fold(output@, pos as nat),
                    ));
                }
            },
            None => {
                proof {
                    assert(spec_priority_fold(output@, pos as nat) == rest);
                }
            },
        }
        pos = if e < n {
            e + 1
        } else {
            n
        };
        proof {
            if e >= n {
                assert(spec_priority_fold(output@, (e + 1) as nat) =~= Map::empty());
                assert(spec_priority_fold(output@, n as nat) =~= Map::empty());
            }
        }
    }
    proof {
        assert(spec_priority_fold(output@, pos as nat) =~= Map::empty());
        assert(spec_priority_map(output@) =~= gm);
    }
    m
}

/// What one row of the memory listing contributes: a pid with its virtual
/// and resident KB values, when the row has at least three fields and all
/// three parse; nothing otherwise.
pub open spec fn spec_memory_entry(line: Seq<u8>) -> Option<(u32, ProcessMemory)> {
    let s1 = tok_start(line, 0);
    let e1 = tok_end(line, s1);
    let s2 = tok_start(line, e1);
    let e2 = tok_end(line, s2);
    let s3 = tok_start(line, e2);
    let e3 = tok_end(line, s3);
    if s3 < line.len() {
        match (
            spec_parse_u32(line.subrange(s1 as int, e1 as int)),
            spec_parse_u64(line.subrange(s2 as int, e2 as int)),
            spec_parse_u64(line.subrange(s3 as int, e3 as int)),
        ) {
            (Some(pid), Some(vsz), Some(rss)) => Some(
                (pid, ProcessMemory { virtual_memory: vsz, resident_memory: rss }),
            ),
            _ => None,
        }
    } else {
        None
    }
}

/// The memory entries of the rows from byte `from` on.
pub open spec fn spec_memory_fold(s: Seq<u8>, from: nat) -> Map<u32, ProcessMemory>
    decreases s.len() + 1 - from,
        via spec_memory_fold_decreases
{
    if from >= s.len() {
        Map::empty()
    } else {
        let e = line_end(s, from);
        let rest = spec_memory_fold(s, e + 1);
        match spec_memory_entry(s.subrange(from as int, e as int)) {
            Some(entry) => if rest.contains_key(entry.0) {
                rest
            } else {
                rest.insert(entry.0, entry.1)
            },
            None => rest,
        }
    }
}

#[via_fn]
proof fn spec_memory_fold_decreases(s: Seq<u8>, from: nat) {
    if from < s.len() {
        lemma_line_end_bounds(s, from);
    }
}

/// The memory map encoded by a listing: its rows after the header line.
pub open spec fn spec_memory_map(s: Seq<u8>) -> Map<u32, ProcessMemory> {
    spec_memory_fold(s, line_end(s, 0) + 1)
}

fn parse_memory_line(line: &Vec<u8>) -> (r: Option<(u32, ProcessMemory)>)
    ensures
        r == spec_memory_entry(line@),
{
    let s1 = skip_spaces(line, 0);
    let e1 = scan_token_end(line, s1);
    let s2 = skip_spaces(line, e1);
    let e2 = scan_token_end(line, s2);
    let s3 = skip_spaces(line, e2);
    let e3 = scan_token_end(line, s3);
    if s3 < line.len() {
        let pid = parse_u32_range(line, s1, e1);
        let vsz = parse_u64_range(line, s2, e2);
        let rss = parse_u64_range(line, s3, e3);
        match (pid, vsz, rss) {
            (Some(pid), Some(vsz), Some(rss)) => Some(
                (pid, ProcessMemory { virtual_memory: vsz, resident_memory: rss }),
            ),
            _ => None,
        }
    } else {
        None
    }
}

/// Parse a memory listing (pid, vsz, rss columns under a header row) into
/// a map from pid to its virtual/resident KB values.  Malformed rows are
/// skipped; a later row wins on a repeated pid.
pub fn parse_memory_rows(output: &Vec<u8>) -> (m: HashMap<u32, ProcessMemory>)
    ensures
        m@ == spec_memory_map(output@),
{
    let mut m: HashMap<u32, ProcessMemory> = HashMap::new();
    let n = output.len();
    let header_end = find_line_end(output, 0);
    let pos0: usize = if header_end < n {
        header_end + 1
    } else {
        n
    };
    proof {
        if header_end >= n {
            assert(spec_memory_fold(output@, (header_end + 1) as nat) =~= Map::empty());
            assert(spec_memory_fold(output@, n as nat) =~= Map::empty());
        }
        assert(spec_memory_map(output@) =~= m@.union_prefer_right(
            spec_memory_fold(output@, pos0 as nat),
        ));
    }
    let mut pos = pos0;
    while pos < n
        invariant
            pos <= n,
            n == output@.len(),
            spec_memory_map(output@) == m@.union_prefer_right(
                spec_memory_fold(output@, pos as nat),
            ),
        decreases n - pos,
    {
        let e = find_line_end(output, pos);
        let line = copy_range(output, pos, e);
        let ghost rest = spec_memory_fold(output@, (e + 1) as nat);
        let ghost old_m = m@;
        match parse_memory_line(&line) {
            Some((pid, pm)) => {
                m.insert(pid, pm);
                proof {
                    assert(m@.union_prefer_right(rest) =~= old_m.union_prefer_right(
                        spec_memory_fold(output@, pos as nat),
                    ));
                }
            },
            None => {
                proof {
                    assert(spec_memory_fold(output@, pos as nat) == rest);
                }
            },
        }
        pos = if e < n {
            e + 1
        } else {
            n
        };
        proof {
            if e >= n {
                assert(spec_memory_fold(output@, (e + 1) as nat) =~= Map::empty());
                assert(spec_memory_fold(output@, n as nat) =~= Map::empty());
            }
        }
    }
    proof {
        assert(spec_memory_fold(output@, pos as nat) =~= Map::empty());
        assert(spec_memory_map(output@) =~= m@);
    }
    m
}

} // verus!
