//! Execution-debugging state: breakpoints on program-counter values, on
//! accessed memory addresses, and a table of named addresses. Reading a
//! symbol listing from disk is the embedder's concern; it hands the parsed
//! entries in through `add_symbol`.

use std::collections::HashMap;
use vstd::prelude::*;
use vstd::string::StrSliceExecFns;
use vstd::string::StringExecFns;

verus! {

broadcast use vstd::std_specs::hash::group_hash_axioms;

/// A space or tab, which field trimming removes.
pub open spec fn spec_is_blank(c: char) -> bool {
    c == ' ' || c == '\t'
}

/// The first index in [lo, hi) of `s` holding `c`.
pub open spec fn spec_find(s: Seq<char>, lo: int, hi: int, c: char) -> Option<int>
    decreases hi - lo,
{
    if lo < 0 || lo >= hi || hi > s.len() {
        None
    } else if s[lo] == c {
        Some(lo)
    } else {
        spec_find(s, lo + 1, hi, c)
    }
}

/// The last index in [lo, hi) of `s` holding `c`.
pub open spec fn spec_rfind(s: Seq<char>, lo: int, hi: int, c: char) -> Option<int>
    decreases hi - lo,
{
    if lo < 0 || lo >= hi || hi > s.len() {
        None
    } else if s[hi - 1] == c {
        Some(hi - 1)
    } else {
        spec_rfind(s, lo, hi - 1, c)
    }
}

/// The first non-blank position at or after `lo` in [lo, hi).
pub open spec fn spec_trim_lo(s: Seq<char>, lo: int, hi: int) -> int
    decreases hi - lo,
{
    if lo < 0 || lo >= hi || hi > s.len() {
        lo
    } else if spec_is_blank(s[lo]) {
        spec_trim_lo(s, lo + 1, hi)
    } else {
        lo
    }
}

/// The position after the last non-blank character of [lo, hi).
pub open spec fn spec_trim_hi(s: Seq<char>, lo: int, hi: int) -> int
    decreases hi - lo,
{
    if lo < 0 || hi <= lo || hi > s.len() {
        hi
    } else if spec_is_blank(s[hi - 1]) {
        spec_trim_hi(s, lo, hi - 1)
    } else {
        hi
    }
}

/// The value of a hex digit, or -1 for any other character.
pub open spec fn spec_hex_char_val(c: char) -> int {
    let u = c as u32;
    if 48 <= u && u <= 57 {
        u - 48
    } else if 65 <= u && u <= 70 {
        u - 65 + 10
    } else if 97 <= u && u <= 102 {
        u - 97 + 10
    } else {
        -1
    }
}

/// Hex digits of [lo, hi) accumulated onto `acc`, refusing a non-digit or
/// a value past 16 bits.
pub open spec fn spec_parse_hex_from(s: Seq<char>, lo: int, hi: int, acc: int) -> Option<u16>
    decreases hi - lo,
{
    if lo >= hi {
        Some(acc as u16)
    } else {
        let v = spec_hex_char_val(s[lo]);
        if v < 0 {
            None
        } else {
            let a = acc * 16 + v;
            if a > 0xFFFF {
                None
            } else {
                spec_parse_hex_from(s, lo + 1, hi, a)
            }
        }
    }
}

/// The hex number written in [lo, hi): at least one digit, 16 bits.
pub open spec fn spec_parse_hex(s: Seq<char>, lo: int, hi: int) -> Option<u16> {
    if lo >= hi {
        None
    } else {
        spec_parse_hex_from(s, lo, hi, 0)
    }
}

pub open spec fn spec_field_is_name(s: Seq<char>, lo: int, hi: int) -> bool {
    hi - lo >= 5 && s[lo] == 'n' && s[lo + 1] == 'a' && s[lo + 2] == 'm' && s[lo + 3] == 'e'
        && s[lo + 4] == '='
}

pub open spec fn spec_field_is_val(s: Seq<char>, lo: int, hi: int) -> bool {
    hi - lo >= 4 && s[lo] == 'v' && s[lo + 1] == 'a' && s[lo + 2] == 'l' && s[lo + 3] == '='
}

/// The name a trimmed `name="…"` field carries: the text between its
/// first and last quote, if both exist and differ.
pub open spec fn spec_field_name(s: Seq<char>, lo: int, hi: int) -> Option<Seq<char>> {
    let tl = spec_trim_lo(s, lo, hi);
    let th = spec_trim_hi(s, tl, hi);
    if spec_field_is_name(s, tl, th) {
        let q1 = spec_find(s, tl, th, '"');
        let q2 = spec_rfind(s, tl, th, '"');
        if q1 is Some && q2 is Some && q1.unwrap() < q2.unwrap() {
            Some(s.subrange(q1.unwrap() + 1, q2.unwrap()))
        } else {
            None
        }
    } else {
        None
    }
}

/// The address a trimmed `val=` field carries: the hex value after an
/// optional 0x prefix.
pub open spec fn spec_field_val(s: Seq<char>, lo: int, hi: int) -> Option<u16> {
    let tl = spec_trim_lo(s, lo, hi);
    let th = spec_trim_hi(s, tl, hi);
    if spec_field_is_val(s, tl, th) {
        let v0 = tl + 4;
        let v1 = if th - v0 >= 2 && s[v0] == '0' && s[v0 + 1] == 'x' {
            v0 + 2
        } else {
            v0
        };
        spec_parse_hex(s, v1, th)
    } else {
        None
    }
}

/// The entry a listing line's comma-separated fields produce: the last
/// well-formed name and the last well-formed address of the line, when
/// both exist.
pub open spec fn spec_line_fields(
    s: Seq<char>,
    lo: int,
    hi: int,
    nm: Option<Seq<char>>,
    vl: Option<u16>,
) -> Option<(u16, Seq<char>)>
    decreases hi - lo,
{
    let e = match spec_find(s, lo, hi, ',') {
        Some(i) => i,
        None => hi,
    };
    let nm1 = match spec_field_name(s, lo, e) {
        Some(x) => Some(x),
        None => nm,
    };
    let vl1 = match spec_field_val(s, lo, e) {
        Some(x) => Some(x),
        None => vl,
    };
    if lo <= e && e < hi {
        spec_line_fields(s, e + 1, hi, nm1, vl1)
    } else {
        match (nm1, vl1) {
            (Some(n), Some(v)) => Some((v, n)),
            _ => None,
        }
    }
}

/// The entry a listing line in [lo, hi) produces: lines opening with
/// `sym` are scanned field by field, everything else is skipped; a
/// trailing carriage return is dropped first.
pub open spec fn spec_line_entry(s: Seq<char>, lo: int, hi: int) -> Option<(u16, Seq<char>)> {
    let hi2 = if hi > lo && s[hi - 1] == '\r' {
        hi - 1
    } else {
        hi
    };
    if hi2 - lo >= 3 && s[lo] == 's' && s[lo + 1] == 'y' && s[lo + 2] == 'm' {
        spec_line_fields(s, lo, hi2, None, None)
    } else {
        None
    }
}

/// The symbols a listing's lines from position `i` on contribute, later
/// lines overriding earlier ones.
pub open spec fn spec_symbol_entries_from(s: Seq<char>, i: int) -> Map<u16, Seq<char>>
    decreases s.len() - i,
{
    if i < 0 || i >= s.len() {
        Map::empty()
    } else {
        let e = match spec_find(s, i, s.len() as int, '\n') {
            Some(j) => j,
            None => s.len() as int,
        };
        let rest = if i <= e && e < s.len() {
            spec_symbol_entries_from(s, e + 1)
        } else {
            Map::<u16, Seq<char>>::empty()
        };
        match spec_line_entry(s, i, e) {
            Some(p) => map![p.0 => p.1].union_prefer_right(rest),
            None => rest,
        }
    }
}

/// Every symbol a listing defines.
pub open spec fn spec_symbol_entries(s: Seq<char>) -> Map<u16, Seq<char>> {
    spec_symbol_entries_from(s, 0)
}

/// The first index in [lo, hi) of `s` holding `c`, if any.
fn find_char(s: &str, lo: usize, hi: usize, c: char) -> (r: Option<usize>)
    requires
        lo <= hi <= s@.len(),
    ensures
        match r {
            Some(i) => spec_find(s@, lo as int, hi as int, c) == Some(i as int) && lo <= i < hi,
            None => spec_find(s@, lo as int, hi as int, c) is None,
        },
{
    let mut i = lo;
    while i < hi
        invariant
            lo <= i <= hi <= s@.len(),
            spec_find(s@, lo as int, hi as int, c) == spec_find(s@, i as int, hi as int, c),
        decreases hi - i,
    {
        if s.get_char(i) == c {
            return Some(i);
        }
        i = i + 1;
    }
    return None;
}

/// The last index in [lo, hi) of `s` holding `c`, if any.
fn rfind_char(s: &str, lo: usize, hi: usize, c: char) -> (r: Option<usize>)
    requires
        lo <= hi <= s@.len(),
    ensures
        match r {
            Some(i) => spec_rfind(s@, lo as int, hi as int, c) == Some(i as int) && lo <= i < hi,
            None => spec_rfind(s@, lo as int, hi as int, c) is None,
        },
{
    let mut i = hi;
    while i > lo
        invariant
            lo <= i <= hi <= s@.len(),
            spec_rfind(s@, lo as int, hi as int, c) == spec_rfind(s@, lo as int, i as int, c),
        decreases i,
    {
        if s.get_char(i - 1) == c {
            return Some(i - 1);
        }
        i = i - 1;
    }
    return None;
}

fn trim_lo(s: &str, lo: usize, hi: usize) -> (r: usize)
    requires
        lo <= hi <= s@.len(),
    ensures
        r == spec_trim_lo(s@, lo as int, hi as int),
        lo <= r <= hi,
{
    let mut i = lo;
    while i < hi
        invariant
            lo <= i <= hi <= s@.len(),
            spec_trim_lo(s@, lo as int, hi as int) == spec_trim_lo(s@, i as int, hi as int),
        decreases hi - i,
    {
        let c = s.get_char(i);
        if !(c == ' ' || c == '\t') {
            return i;
        }
        i = i + 1;
    }
    return hi;
}

fn trim_hi(s: &str, lo: usize, hi: usize) -> (r: usize)
    requires
        lo <= hi <= s@.len(),
    ensures
        r == spec_trim_hi(s@, lo as int, hi as int),
        lo <= r <= hi,
{
    let mut i = hi;
    while i > lo
        invariant
            lo <= i <= hi <= s@.len(),
            spec_trim_hi(s@, lo as int, hi as int) == spec_trim_hi(s@, lo as int, i as int),
        decreases i,
    {
        let c = s.get_char(i - 1);
        if !(c == ' ' || c == '\t') {
            return i;
        }
        i = i - 1;
    }
    return lo;
}

/// The value of a hex digit, or -1.
fn hex_char_val(c: char) -> (r: i32)
    ensures
        r == spec_hex_char_val(c),
{
    let u = c as u32;
    if 48 <= u && u <= 57 {
        (u - 48) as i32
    } else if 65 <= u && u <= 70 {
        (u - 65 + 10) as i32
    } else if 97 <= u && u <= 102 {
        (u - 97 + 10) as i32
    } else {
        -1
    }
}

/// Parse the hex number in [lo, hi).
fn parse_hex_u16(s: &str, lo: usize, hi: usize) -> (r: Option<u16>)
    requires
        lo <= hi <= s@.len(),
    ensures
        r == spec_parse_hex(s@, lo as int, hi as int),
{
    if lo >= hi {
        return None;
    }
    let mut acc: u32 = 0;
    let mut i = lo;
    while i < hi
        invariant
            lo <= i <= hi <= s@.len(),
            acc <= 0xFFFF,
            spec_parse_hex_from(s@, lo as int, hi as int, 0) == spec_parse_hex_from(
                s@,
                i as int,
                hi as int,
                acc as int,
            ),
        decreases hi - i,
    {
        let v = hex_char_val(s.get_char(i));
        if v < 0 {
            return None;
        }
        let a = acc * 16 + (v as u32);
        if a > 0xFFFF {
            return None;
        }
        acc = a;
        i = i + 1;
    }
    return Some(acc as u16);
}

/// Parse one listing line in [lo, hi): a `sym` line's last `name="…"`
/// and `val=` fields make a symbol entry.
fn parse_symbol_line(s: &str, lo: usize, hi: usize) -> (r: Option<(u16, String)>)
    requires
        lo <= hi <= s@.len(),
    ensures
        (r is Some) == (spec_line_entry(s@, lo as int, hi as int) is Some),
        r matches Some(p) ==> spec_line_entry(s@, lo as int, hi as int) matches Some(q) && p.0
            == q.0 && p.1@ == q.1,
{
    let hi2 = if hi > lo && s.get_char(hi - 1) == '\r' {
        hi - 1
    } else {
        hi
    };
    if !(hi2 - lo >= 3 && s.get_char(lo) == 's' && s.get_char(lo + 1) == 'y' && s.get_char(lo + 2)
        == 'm') {
        return None;
    }
    let mut lo_f = lo;
    let mut nm: Option<String> = None;
    let mut vl: Option<u16> = None;
    loop
        invariant
            lo <= lo_f <= hi2 <= s@.len(),
            spec_line_fields(s@, lo as int, hi2 as int, None, None) == spec_line_fields(
                s@,
                lo_f as int,
                hi2 as int,
                match nm {
                    Some(ref n) => Some(n@),
                    None => None,
                },
                vl,
            ),
        ensures
            spec_line_fields(s@, lo as int, hi2 as int, None, None) == (match (nm, vl) {
                (Some(ref n), Some(v)) => Some((v, n@)),
                _ => None::<(u16, Seq<char>)>,
            }),
        decreases hi2 - lo_f,
    {
        let e = match find_char(s, lo_f, hi2, ',') {
            Some(i) => i,
            None => hi2,
        };
        let tl = trim_lo(s, lo_f, e);
        let th = trim_hi(s, tl, e);
        if th - tl >= 5 && s.get_char(tl) == 'n' && s.get_char(tl + 1) == 'a' && s.get_char(tl + 2)
            == 'm' && s.get_char(tl + 3) == 'e' && s.get_char(tl + 4) == '=' {
            let q1o = find_char(s, tl, th, '"');
            let q2o = rfind_char(s, tl, th, '"');
            if let (Some(q1), Some(q2)) = (q1o, q2o) {
                if q1 < q2 {
                    nm = Some(String::from_str(s.substring_char(q1 + 1, q2)));
                }
            }
        } else if th - tl >= 4 && s.get_char(tl) == 'v' && s.get_char(tl + 1) == 'a' && s.get_char(
            tl + 2,
        ) == 'l' && s.get_char(tl + 3) == '=' {
            let v0 = tl + 4;
            let v1 = if th - v0 >= 2 && s.get_char(v0) == '0' && s.get_char(v0 + 1) == 'x' {
                v0 + 2
            } else {
                v0
            };
            match parse_hex_u16(s, v1, th) {
                Some(v) => {
                    vl = Some(v);
                },
                None => {},
            }
        }
        if e >= hi2 {
            break;
        }
        lo_f = e + 1;
    }
    match (nm, vl) {
        (Some(n), Some(v)) => Some((v, n)),
        _ => None,
    }
}

pub struct Debugger {
    pub breakpoints_pc: HashMap<u16, Option<String>>,
    pub breakpoints_memory_access: HashMap<u16, Option<String>>,
    pub debug_symbols: HashMap<u16, String>,
}

impl Debugger {
    pub fn new() -> (d: Debugger)
        ensures
            d.breakpoints_pc@ == Map::<u16, Option<String>>::empty(),
            d.breakpoints_memory_access@ == Map::<u16, Option<String>>::empty(),
            d.debug_symbols@ == Map::<u16, String>::empty(),
    {
        Self {
            breakpoints_pc: HashMap::new(),
            breakpoints_memory_access: HashMap::new(),
            debug_symbols: HashMap::new(),
        }
    }

    pub fn hit_breakpoint_memory_access(&self, pc: u16) -> (r: bool)
        ensures
            r == self.breakpoints_memory_access@.contains_key(pc),
    {
        self.breakpoints_memory_access.contains_key(&pc)
    }

    pub fn set_breakpoint_memory_access(&mut self, addr: u16, info_text: Option<String>)
        ensures
            final(self).breakpoints_memory_access@ == old(self).breakpoints_memory_access@.insert(addr, info_text),
            final(self).breakpoints_pc == old(self).breakpoints_pc,
            final(self).debug_symbols == old(self).debug_symbols,
    {
        self.breakpoints_memory_access.insert(addr, info_text);
    }

    pub fn toggle_breakpoint_memory_access(&mut self, addr: u16, info_text: Option<String>)
        ensures
            old(self).breakpoints_memory_access@.contains_key(addr) ==> final(self).breakpoints_memory_access@ == old(self).breakpoints_memory_access@.remove(addr),
            !old(self).breakpoints_memory_access@.contains_key(addr) ==> final(self).breakpoints_memory_access@ == old(self).breakpoints_memory_access@.insert(
                addr,
                info_text,
            ),
            final(self).breakpoints_pc == old(self).breakpoints_pc,
            final(self).debug_symbols == old(self).debug_symbols,
    {
        if self.hit_breakpoint_memory_access(addr) {
            self.remove_breakpoint_memory_access(addr);
        } else {
            self.set_breakpoint_memory_access(addr, info_text);
        }
    }

    pub fn remove_breakpoint_memory_access(&mut self, addr: u16)
        ensures
            final(self).breakpoints_memory_access@ == old(self).breakpoints_memory_access@.remove(addr),
            final(self).breakpoints_pc == old(self).breakpoints_pc,
            final(self).debug_symbols == old(self).debug_symbols,
    {
        self.breakpoints_memory_access.remove(&addr);
    }

    pub fn hit_breakpoint_pc(&self, pc: u16) -> (r: bool)
        ensures
            r == self.breakpoints_pc@.contains_key(pc),
    {
        self.breakpoints_pc.contains_key(&pc)
    }

    pub fn set_breakpoint_pc(&mut self, addr: u16, info_text: Option<String>)
        ensures
            final(self).breakpoints_pc@ == old(self).breakpoints_pc@.insert(addr, info_text),
            final(self).breakpoints_memory_access == old(self).breakpoints_memory_access,
            final(self).debug_symbols == old(self).debug_symbols,
    {
        self.breakpoints_pc.insert(addr, info_text);
    }

    pub fn toggle_breakpoint_pc(&mut self, addr: u16, info_text: Option<String>)
        ensures
            old(self).breakpoints_pc@.contains_key(addr) ==> final(self).breakpoints_pc@ == old(self).breakpoints_pc@.remove(addr),
            !old(self).breakpoints_pc@.contains_key(addr) ==> final(self).breakpoints_pc@ == old(self).breakpoints_pc@.insert(addr, info_text),
            final(self).breakpoints_memory_access == old(self).breakpoints_memory_access,
            final(self).debug_symbols == old(self).debug_symbols,
    {
        if self.hit_breakpoint_pc(addr) {
            self.remove_breakpoint_pc(addr);
        } else {
            self.set_breakpoint_pc(addr, info_text);
        }
    }

    pub fn remove_breakpoint_pc(&mut self, addr: u16)
        ensures
            final(self).breakpoints_pc@ == old(self).breakpoints_pc@.remove(addr),
            final(self).breakpoints_memory_access == old(self).breakpoints_memory_access,
            final(self).debug_symbols == old(self).debug_symbols,
    {
        self.breakpoints_pc.remove(&addr);
    }

    /// Record that `addr` carries the name `symbol` in the loaded listing.
    pub fn add_symbol(&mut self, addr: u16, symbol: String)
        ensures
            final(self).debug_symbols@ == old(self).debug_symbols@.insert(addr, symbol),
            final(self).breakpoints_pc == old(self).breakpoints_pc,
            final(self).breakpoints_memory_access == old(self).breakpoints_memory_access,
    {
        self.debug_symbols.insert(addr, symbol);
    }

    /// Read a debug listing's symbols into the table (the file read is the
    /// embedder's concern): each line opening with `sym` contributes its
    /// last `name="…"` text and its last `val=` hex address, later lines
    /// overriding earlier ones and existing entries.
    pub fn load_debug_symbol(&mut self, contents: &str)
        requires
            contents@.len() < usize::MAX,
        ensures
            forall|k: u16|
                final(self).debug_symbols@.contains_key(k) <==> (old(self).debug_symbols@.contains_key(k) || spec_symbol_entries(contents@).contains_key(k)),
            forall|k: u16|
                spec_symbol_entries(contents@).contains_key(k) ==> final(self).debug_symbols@.contains_key(k) && #[trigger] final(self).debug_symbols@[k]@
                    == spec_symbol_entries(contents@)[k],
            forall|k: u16|
                !spec_symbol_entries(contents@).contains_key(k) && old(self).debug_symbols@.contains_key(k) ==> #[trigger] final(self).debug_symbols@[k]
                    == old(self).debug_symbols@[k],
            final(self).breakpoints_pc == old(self).breakpoints_pc,
            final(self).breakpoints_memory_access == old(self).breakpoints_memory_access,
    {
        let n = contents.unicode_len();
        let mut i: usize = 0;
        let ghost total = spec_symbol_entries(contents@);
        let ghost orig = self.debug_symbols@;
        let ghost orig_pc = self.breakpoints_pc;
        let ghost orig_mem = self.breakpoints_memory_access;
        let ghost mut done: Map<u16, Seq<char>> = Map::empty();
        loop
            invariant
                i <= n + 1,
                n == contents@.len(),
                n < usize::MAX,
                done.union_prefer_right(spec_symbol_entries_from(contents@, i as int)) =~= total,
                forall|k: u16|
                    self.debug_symbols@.contains_key(k) <==> (orig.contains_key(k)
                        || done.contains_key(k)),
                forall|k: u16|
                    done.contains_key(k) ==> self.debug_symbols@.contains_key(k)
                        && #[trigger] self.debug_symbols@[k]@ == done[k],
                forall|k: u16|
                    !done.contains_key(k) && orig.contains_key(k)
                        ==> #[trigger] self.debug_symbols@[k] == orig[k],
                self.breakpoints_pc == orig_pc,
                self.breakpoints_memory_access == orig_mem,
            ensures
                done =~= total,
                forall|k: u16|
                    self.debug_symbols@.contains_key(k) <==> (orig.contains_key(k)
                        || done.contains_key(k)),
                forall|k: u16|
                    done.contains_key(k) ==> self.debug_symbols@.contains_key(k)
                        && #[trigger] self.debug_symbols@[k]@ == done[k],
                forall|k: u16|
                    !done.contains_key(k) && orig.contains_key(k)
                        ==> #[trigger] self.debug_symbols@[k] == orig[k],
                self.breakpoints_pc == orig_pc,
                self.breakpoints_memory_access == orig_mem,
            decreases n + 1 - i,
        {
            if i >= n {
                proof {
                    assert(spec_symbol_entries_from(contents@, i as int) =~= Map::empty());
                    assert(done =~= total);
                }
                break;
            }
            let e = match find_char(contents, i, n, '\n') {
                Some(j) => j,
                None => n,
            };
            let ghost rest = if e < n {
                spec_symbol_entries_from(contents@, e + 1)
            } else {
                Map::<u16, Seq<char>>::empty()
            };
            match parse_symbol_line(contents, i, e) {
                Some((v, name)) => {
                    let ghost nmv = name@;
                    self.add_symbol(v, name);
                    proof {
                        let one = map![v => nmv];
                        assert(spec_symbol_entries_from(contents@, i as int)
                            =~= one.union_prefer_right(rest));
                        assert(done.insert(v, nmv).union_prefer_right(rest)
                            =~= done.union_prefer_right(one.union_prefer_right(rest)));
                        done = done.insert(v, nmv);
                        assert(done.union_prefer_right(rest) =~= total);
                    }
                },
                None => {
                    proof {
                        assert(spec_symbol_entries_from(contents@, i as int) =~= rest);
                        assert(done.union_prefer_right(rest) =~= total);
                    }
                },
            }
            i = e + 1;
            proof {
                if i <= n {
                } else {
                    assert(spec_symbol_entries_from(contents@, i as int) =~= Map::empty());
                }
                assert(done.union_prefer_right(spec_symbol_entries_from(contents@, i as int))
                    =~= total);
            }
        }
    }

    pub fn check_symbol_at_memory_access(&self, addr: u16) -> (r: bool)
        ensures
            r == self.debug_symbols@.contains_key(addr),
    {
        self.debug_symbols.contains_key(&addr)
    }

    /// The symbol recorded at `addr`, or the empty string when there is
    /// none.
    pub fn get_symbol_at_memory_access(&self, addr: u16) -> (r: String)
        ensures
            self.debug_symbols@.contains_key(addr) ==> r@ == self.debug_symbols@[addr]@,
            !self.debug_symbols@.contains_key(addr) ==> r@ == Seq::<char>::empty(),
    {
        match self.debug_symbols.get(&addr) {
            Some(s) => s.clone(),
            None => String::new(),
        }
    }
}

} // verus!
