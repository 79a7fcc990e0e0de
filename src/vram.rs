//! Best-effort GPU memory probes and the parsers behind them.

use vstd::prelude::*;
use crate::text::{
    chars_of, contains, contains_chars, decimal, is_digit, lower_chars, lower_seq, pieces,
    push_decimal, split_on, split_words, trim, trim_chars, views, words, TrimSet,
};

verus! {

broadcast use vstd::string::group_string_axioms;

/// Value of `c` as a digit in `radix` (10 or 16).
pub open spec fn digit_value(c: char, radix: nat) -> Option<nat> {
    if '0' <= c && c <= '9' {
        Some(((c as int) - 48) as nat)
    } else if radix == 16 && 'a' <= c && c <= 'f' {
        Some(((c as int) - 87) as nat)
    } else if radix == 16 && 'A' <= c && c <= 'F' {
        Some(((c as int) - 55) as nat)
    } else {
        None
    }
}

/// Value of a run of digits, most significant first; `None` if one is no digit.
pub open spec fn digits_value(d: Seq<char>, radix: nat) -> Option<nat>
    decreases d.len(),
{
    if d.len() == 0 {
        Some(0)
    } else {
        match (digits_value(d.drop_last(), radix), digit_value(d.last(), radix)) {
            (Some(v), Some(x)) => Some(v * radix + x),
            _ => None,
        }
    }
}

/// The grammar of `u64::from_str_radix`: an optional `+`, at least one digit,
/// and a value that fits in 64 bits.
pub open spec fn parse_u64_spec(s: Seq<char>, radix: nat) -> Option<u64> {
    let body = if s.len() > 0 && s[0] == '+' {
        s.drop_first()
    } else {
        s
    };
    if body.len() == 0 {
        None
    } else {
        match digits_value(body, radix) {
            Some(v) => if v <= u64::MAX {
                Some(v as u64)
            } else {
                None
            },
            None => None,
        }
    }
}

proof fn lemma_digits_prefix(d: Seq<char>, radix: nat, k: int)
    requires
        0 <= k <= d.len(),
        radix >= 1,
    ensures
        digits_value(d.take(k), radix) is None ==> digits_value(d, radix) is None,
        digits_value(d.take(k), radix) is Some && digits_value(d, radix) is Some
            ==> digits_value(d, radix)->0 >= digits_value(d.take(k), radix)->0,
    decreases d.len(),
{
    if k == d.len() {
        assert(d.take(k) =~= d);
    } else {
        assert(d.drop_last().take(k) =~= d.take(k));
        lemma_digits_prefix(d.drop_last(), radix, k);
        if let (Some(v), Some(x)) = (digits_value(d.drop_last(), radix), digit_value(d.last(), radix)) {
            assert(v * radix + x >= v) by (nonlinear_arith)
                requires
                    radix >= 1,
            ;
        }
    }
}

fn digit_of(c: char, radix: u32) -> (r: Option<u32>)
    ensures
        r matches Some(x) ==> digit_value(c, radix as nat) == Some(x as nat) && x < 16,
        r is None ==> digit_value(c, radix as nat) is None,
{
    if '0' <= c && c <= '9' {
        Some((c as u32) - 48)
    } else if radix == 16 && 'a' <= c && c <= 'f' {
        Some((c as u32) - 87)
    } else if radix == 16 && 'A' <= c && c <= 'F' {
        Some((c as u32) - 55)
    } else {
        None
    }
}

/// Parses `s` as `u64::from_str_radix` does, in radix 10 or 16.
pub fn parse_u64(s: &Vec<char>, radix: u32) -> (r: Option<u64>)
    requires
        radix == 10 || radix == 16,
    ensures
        r == parse_u64_spec(s@, radix as nat),
{
    let n = s.len();
    let start: usize = if n > 0 && s[0] == '+' {
        1
    } else {
        0
    };
    let ghost body = s@.subrange(start as int, n as int);
    assert(body =~= (if s@.len() > 0 && s@[0] == '+' {
        s@.drop_first()
    } else {
        s@
    }));
    if start == n {
        return None;
    }
    let mut acc: u128 = 0;
    let mut i: usize = start;
    assert(body.take(0) =~= Seq::<char>::empty());
    while i < n
        invariant
            start <= i <= n == s@.len(),
            body == s@.subrange(start as int, n as int),
            body == (if s@.len() > 0 && s@[0] == '+' {
                s@.drop_first()
            } else {
                s@
            }),
            body.len() > 0,
            radix == 10 || radix == 16,
            acc <= u64::MAX,
            digits_value(body.take(i - start), radix as nat) == Some(acc as nat),
        decreases n - i,
    {
        let ghost k = i - start;
        assert(body.take(k + 1).drop_last() =~= body.take(k));
        assert(body.take(k + 1).last() == s@[i as int]);
        match digit_of(s[i], radix) {
            None => {
                assert(digits_value(body.take(k + 1), radix as nat) is None);
                proof {
                    lemma_digits_prefix(body, radix as nat, k + 1);
                }
                return None;
            },
            Some(x) => {
                assert(acc * (radix as u128) + (x as u128) < 0x1_0000_0000_0000_0000_0u128) by (nonlinear_arith)
                    requires
                        acc <= u64::MAX,
                        radix <= 16,
                        x < 16,
                ;
                acc = acc * (radix as u128) + (x as u128);
                assert(digits_value(body.take(k + 1), radix as nat) == Some(acc as nat));
                i += 1;
                if acc > u64::MAX as u128 {
                    proof {
                        lemma_digits_prefix(body, radix as nat, k + 1);
                    }
                    return None;
                }
            },
        }
    }
    assert(body.take(n - start) =~= body);
    Some(acc as u64)
}

/// The ASCII digits of `s`, in order.
pub open spec fn digits_of(s: Seq<char>) -> Seq<char>
    decreases s.len(),
{
    if s.len() == 0 {
        seq![]
    } else if is_digit(s.last()) {
        digits_of(s.drop_last()).push(s.last())
    } else {
        digits_of(s.drop_last())
    }
}

/// The characters of `s` that are no ASCII digit, in order.
pub open spec fn unit_of(s: Seq<char>) -> Seq<char>
    decreases s.len(),
{
    if s.len() == 0 {
        seq![]
    } else if is_digit(s.last()) {
        unit_of(s.drop_last())
    } else {
        unit_of(s.drop_last()).push(s.last())
    }
}

pub open spec fn unit_multiplier(u: Seq<char>) -> u64 {
    if u == seq!['k'] || u == seq!['k', 'b'] || u == seq!['k', 'i', 'b'] {
        1024
    } else if u == seq!['m'] || u == seq!['m', 'b'] || u == seq!['m', 'i', 'b'] {
        1048576
    } else if u == seq!['g'] || u == seq!['g', 'b'] || u == seq!['g', 'i', 'b'] {
        1073741824
    } else {
        1
    }
}

pub open spec fn sat_mul(a: u64, b: u64) -> u64 {
    if a * b > u64::MAX {
        u64::MAX
    } else {
        (a * b) as u64
    }
}

/// A byte count read from a token: all its ASCII digits taken together as a
/// decimal number, scaled by the unit that the other characters spell
/// (`k`, `m`, `g`, with an optional `b` or `ib`, in any case; anything else
/// counts as bytes), saturating at `u64::MAX`.
pub open spec fn embedded_number_spec(t: Seq<char>) -> Option<u64> {
    let d = digits_of(t);
    if d.len() == 0 {
        None
    } else {
        match parse_u64_spec(d, 10) {
            Some(v) => Some(sat_mul(v, unit_multiplier(lower_seq(unit_of(t))))),
            None => None,
        }
    }
}

/// As `embedded_number_spec`, once `:` and `=` are trimmed from both ends.
pub open spec fn number_with_unit_spec(t: Seq<char>) -> Option<u64> {
    embedded_number_spec(trim(t, TrimSet::ColonOrEquals))
}

fn is_seq1(u: &Vec<char>, a: char) -> (r: bool)
    ensures
        r == (u@ == seq![a]),
{
    let r = u.len() == 1 && u[0] == a;
    if r {
        assert(u@ =~= seq![a]);
    }
    r
}

fn is_seq2(u: &Vec<char>, a: char, b: char) -> (r: bool)
    ensures
        r == (u@ == seq![a, b]),
{
    let r = u.len() == 2 && u[0] == a && u[1] == b;
    if r {
        assert(u@ =~= seq![a, b]);
    }
    r
}

fn is_seq3(u: &Vec<char>, a: char, b: char, c: char) -> (r: bool)
    ensures
        r == (u@ == seq![a, b, c]),
{
    let r = u.len() == 3 && u[0] == a && u[1] == b && u[2] == c;
    if r {
        assert(u@ =~= seq![a, b, c]);
    }
    r
}

fn multiplier_of(u: &Vec<char>) -> (r: u64)
    ensures
        r == unit_multiplier(u@),
{
    if is_seq1(u, 'k') || is_seq2(u, 'k', 'b') || is_seq3(u, 'k', 'i', 'b') {
        1024
    } else if is_seq1(u, 'm') || is_seq2(u, 'm', 'b') || is_seq3(u, 'm', 'i', 'b') {
        1048576
    } else if is_seq1(u, 'g') || is_seq2(u, 'g', 'b') || is_seq3(u, 'g', 'i', 'b') {
        1073741824
    } else {
        1
    }
}

fn embedded_number(t: &Vec<char>) -> (r: Option<u64>)
    ensures
        r == embedded_number_spec(t@),
{
    let mut digits: Vec<char> = Vec::new();
    let mut unit: Vec<char> = Vec::new();
    let mut i: usize = 0;
    while i < t.len()
        invariant
            i <= t@.len(),
            digits@ == digits_of(t@.take(i as int)),
            unit@ == unit_of(t@.take(i as int)),
        decreases t@.len() - i,
    {
        let c = t[i];
        assert(t@.take(i + 1).drop_last() =~= t@.take(i as int));
        if '0' <= c && c <= '9' {
            digits.push(c);
        } else {
            unit.push(c);
        }
        i += 1;
    }
    assert(t@.take(t@.len() as int) =~= t@);
    if digits.len() == 0 {
        return None;
    }
    match parse_u64(&digits, 10) {
        None => None,
        Some(v) => {
            let mul = multiplier_of(&lower_chars(&unit));
            match v.checked_mul(mul) {
                Some(p) => Some(p),
                None => Some(u64::MAX),
            }
        },
    }
}

fn number_with_unit(t: &Vec<char>) -> (r: Option<u64>)
    ensures
        r == number_with_unit_spec(t@),
{
    embedded_number(&trim_chars(t, TrimSet::ColonOrEquals))
}

/// Reads a byte count from a token such as `1234`, `512kb`, `3MiB` or `7g`.
pub fn parse_embedded_number_with_unit(t: &str) -> (r: Option<u64>)
    ensures
        r == embedded_number_spec(t@),
{
    embedded_number(&chars_of(t))
}

/// As `parse_embedded_number_with_unit`, after trimming `:` and `=` from both ends.
pub fn parse_number_with_unit(token: &str) -> (r: Option<u64>)
    ensures
        r == number_with_unit_spec(token@),
{
    number_with_unit(&chars_of(token))
}

pub open spec fn vram_word() -> Seq<char> {
    seq!['v', 'r', 'a', 'm']
}

/// Scans the words from position `i`: each word that contains `vram` is
/// followed by up to three words that are tried as a byte count.
pub open spec fn scan_from(toks: Seq<Seq<char>>, i: int) -> Option<u64>
    decreases toks.len() - i, 0int,
{
    if i < 0 || i >= toks.len() {
        None
    } else if contains(toks[i], vram_word()) {
        probe_from(toks, i + 1, 3)
    } else {
        scan_from(toks, i + 1)
    }
}

/// Tries up to `k` words from position `j` as a byte count, and scans on
/// after them when none reads as one.
pub open spec fn probe_from(toks: Seq<Seq<char>>, j: int, k: nat) -> Option<u64>
    decreases toks.len() - j, k + 1,
{
    if j < 0 || j >= toks.len() {
        None
    } else if k == 0 {
        scan_from(toks, j)
    } else if number_with_unit_spec(toks[j]) is Some {
        number_with_unit_spec(toks[j])
    } else if embedded_number_spec(toks[j]) is Some {
        embedded_number_spec(toks[j])
    } else {
        probe_from(toks, j + 1, (k - 1) as nat)
    }
}

/// The first byte count that follows a word containing `vram`, words being
/// split at whitespace and compared without regard to ASCII case.
pub open spec fn extract_spec(txt: Seq<char>) -> Option<u64> {
    scan_from(words(lower_seq(txt)), 0)
}

fn extract_from_chars(txt: &Vec<char>) -> (r: Option<u64>)
    ensures
        r == extract_spec(txt@),
{
    let toks = split_words(&lower_chars(txt));
    let ghost v = views(toks@);
    let vram: Vec<char> = vec!['v', 'r', 'a', 'm'];
    assert(vram@ =~= vram_word());
    let n = toks.len();
    let mut i: usize = 0;
    while i < n
        invariant
            n == toks@.len() == v.len(),
            v == views(toks@),
            vram@ == vram_word(),
            i <= n,
            scan_from(v, 0) == scan_from(v, i as int),
            v == words(lower_seq(txt@)),
        decreases n - i,
    {
        let hit = contains_chars(&toks[i], &vram);
        assert(v[i as int] == toks@[i as int]@);
        i += 1;
        if hit {
            let mut k: usize = 3;
            let ghost i0 = i;
            while k > 0
                invariant
                    n == toks@.len() == v.len(),
                    v == views(toks@),
                    vram@ == vram_word(),
                    v == words(lower_seq(txt@)),
                    i0 <= i <= n,
                    k <= 3,
                    scan_from(v, 0) == probe_from(v, i as int, k as nat),
                decreases k,
            {
                if i < n {
                    assert(v[i as int] == toks@[i as int]@);
                    match number_with_unit(&toks[i]) {
                        Some(b) => {
                            return Some(b);
                        },
                        None => {},
                    }
                    match embedded_number(&toks[i]) {
                        Some(b) => {
                            return Some(b);
                        },
                        None => {},
                    }
                    i += 1;
                }
                k -= 1;
            }
        }
    }
    None
}

/// The byte count that follows the word `vram` in a line or block of a
/// driver's debug listing, if any.
pub fn extract_vram_bytes_from_text(txt: &str) -> (r: Option<u64>)
    ensures
        r == extract_spec(txt@),
{
    extract_from_chars(&chars_of(txt))
}


/// The marker that names a process in the driver's listings: `pid <n>`.
pub open spec fn pid_pattern(pid: u32) -> Seq<char> {
    seq!['p', 'i', 'd', ' '] + decimal(pid as nat)
}

/// The first reading among `blocks` from position `i` on, taken from a block
/// that mentions `pat` (without regard to ASCII case) and holds a `vram` count.
pub open spec fn first_block_reading(blocks: Seq<Seq<char>>, pat: Seq<char>, i: int) -> Option<u64>
    decreases blocks.len() - i,
{
    if i < 0 || i >= blocks.len() {
        None
    } else if contains(lower_seq(blocks[i]), pat) && extract_spec(blocks[i]) is Some {
        extract_spec(blocks[i])
    } else {
        first_block_reading(blocks, pat, i + 1)
    }
}

/// Reading of the per-process listing `amdgpu_vm_info`: blocks are separated by blank lines.
pub open spec fn vm_info_spec(text: Seq<char>, pid: u32) -> Option<u64> {
    first_block_reading(pieces(text, seq!['\n', '\n']), pid_pattern(pid), 0)
}

/// Reading of the per-process listing `amdgpu_gem_info`, line by line.
pub open spec fn gem_info_spec(text: Seq<char>, pid: u32) -> Option<u64> {
    first_block_reading(pieces(text, seq!['\n']), pid_pattern(pid), 0)
}

fn first_reading_for(text: &str, sep: &Vec<char>, pid: u32) -> (r: Option<u64>)
    requires
        sep@.len() > 0,
    ensures
        r == first_block_reading(pieces(text@, sep@), pid_pattern(pid), 0),
{
    let blocks = split_on(&chars_of(text), sep);
    let ghost v = views(blocks@);
    let mut pat: Vec<char> = vec!['p', 'i', 'd', ' '];
    push_decimal(&mut pat, pid as u64);
    assert(pat@ =~= pid_pattern(pid));
    let mut i: usize = 0;
    while i < blocks.len()
        invariant
            v == views(blocks@),
            v == pieces(text@, sep@),
            pat@ == pid_pattern(pid),
            i <= blocks@.len(),
            first_block_reading(v, pat@, 0) == first_block_reading(v, pat@, i as int),
        decreases blocks@.len() - i,
    {
        assert(v[i as int] == blocks@[i as int]@);
        if contains_chars(&lower_chars(&blocks[i]), &pat) {
            match extract_from_chars(&blocks[i]) {
                Some(b) => {
                    return Some(b);
                },
                None => {},
            }
        }
        i += 1;
    }
    None
}

/// The `vram` count of the first block of an `amdgpu_vm_info` listing that
/// names process `pid` and holds one.
pub fn parse_amdgpu_vm_info_for_pid(text: &str, pid: u32) -> (r: Option<u64>)
    ensures
        r == vm_info_spec(text@, pid),
{
    let sep: Vec<char> = vec!['\n', '\n'];
    assert(sep@ =~= seq!['\n', '\n']);
    first_reading_for(text, &sep, pid)
}

/// The `vram` count of the first line of an `amdgpu_gem_info` listing that
/// names process `pid` and holds one.
pub fn parse_amdgpu_gem_info_for_pid(text: &str, pid: u32) -> (r: Option<u64>)
    ensures
        r == gem_info_spec(text@, pid),
{
    let sep: Vec<char> = vec!['\n'];
    assert(sep@ =~= seq!['\n']);
    first_reading_for(text, &sep, pid)
}

/// The two per-process listings of one DRI debug directory, where they could be read.
pub struct DriDebugListings {
    pub vm_info: Option<String>,
    pub gem_info: Option<String>,
}

pub open spec fn listings_reading(d: DriDebugListings, pid: u32) -> Option<u64> {
    let vm = match d.vm_info {
        Some(t) => vm_info_spec(t@, pid),
        None => None,
    };
    if vm is Some {
        vm
    } else {
        match d.gem_info {
            Some(t) => gem_info_spec(t@, pid),
            None => None,
        }
    }
}

pub open spec fn first_listings_reading(dirs: Seq<DriDebugListings>, pid: u32, i: int) -> Option<u64>
    decreases dirs.len() - i,
{
    if i < 0 || i >= dirs.len() {
        None
    } else if listings_reading(dirs[i], pid) is Some {
        listings_reading(dirs[i], pid)
    } else {
        first_listings_reading(dirs, pid, i + 1)
    }
}

/// The V-RAM bytes of process `pid` from the amdgpu debug listings of each DRI
/// directory, in order: the first directory whose `amdgpu_vm_info`, or else
/// whose `amdgpu_gem_info`, gives a reading.
pub fn query_vram_bytes_linux_amdgpu_per_process(dirs: &Vec<DriDebugListings>, pid: u32) -> (r: Option<u64>)
    ensures
        r == first_listings_reading(dirs@, pid, 0),
{
    let mut i: usize = 0;
    while i < dirs.len()
        invariant
            i <= dirs@.len(),
            first_listings_reading(dirs@, pid, 0) == first_listings_reading(dirs@, pid, i as int),
        decreases dirs@.len() - i,
    {
        let d = &dirs[i];
        let vm = match &d.vm_info {
            Some(t) => parse_amdgpu_vm_info_for_pid(t.as_str(), pid),
            None => None,
        };
        if vm.is_some() {
            return vm;
        }
        let gem = match &d.gem_info {
            Some(t) => parse_amdgpu_gem_info_for_pid(t.as_str(), pid),
            None => None,
        };
        if gem.is_some() {
            return gem;
        }
        i += 1;
    }
    None
}

/// A sysfs counter as the kernel writes it: decimal, or hexadecimal after
/// `0x` or `0X`, with whitespace around it.
pub open spec fn sysfs_u64_spec(s: Seq<char>) -> Option<u64> {
    let t = trim(s, TrimSet::Whitespace);
    if t.len() >= 2 && t[0] == '0' && (t[1] == 'x' || t[1] == 'X') {
        parse_u64_spec(t.skip(2), 16)
    } else {
        parse_u64_spec(t, 10)
    }
}

pub fn read_sysfs_u64(s: &str) -> (r: Option<u64>)
    ensures
        r == sysfs_u64_spec(s@),
{
    let t = trim_chars(&chars_of(s), TrimSet::Whitespace);
    if t.len() >= 2 && t[0] == '0' && (t[1] == 'x' || t[1] == 'X') {
        let hex = crate::text::sub_chars(&t, 2, t.len());
        assert(hex@ =~= t@.skip(2));
        parse_u64(&hex, 16)
    } else {
        parse_u64(&t, 10)
    }
}

fn read_optional(s: &Option<String>) -> (r: Option<u64>)
    ensures
        r == optional_reading(*s),
{
    match s {
        Some(t) => read_sysfs_u64(t.as_str()),
        None => None,
    }
}

pub open spec fn optional_reading(s: Option<String>) -> Option<u64> {
    match s {
        Some(t) => sysfs_u64_spec(t@),
        None => None,
    }
}

/// What one entry of `/sys/class/drm` offers: its name, the name of its
/// device's driver, and the device files read for the decision.
pub struct DrmCard {
    pub name: String,
    pub driver: Option<String>,
    pub vendor: Option<String>,
    pub vram_used: Option<String>,
    pub vis_vram_used: Option<String>,
}

/// `card` followed by decimal digits only.
pub open spec fn is_card_name(n: Seq<char>) -> bool {
    &&& n.len() >= 4
    &&& n.take(4) == seq!['c', 'a', 'r', 'd']
    &&& forall|i: int| 4 <= i < n.len() ==> is_digit(#[trigger] n[i])
}

pub const AMD_VENDOR_ID: u64 = 0x1002;

pub open spec fn is_amdgpu_spec(c: DrmCard) -> bool {
    ||| (c.driver matches Some(d) && d@ == seq!['a', 'm', 'd', 'g', 'p', 'u'])
    ||| optional_reading(c.vendor) == Some(AMD_VENDOR_ID)
}

/// The bytes in use on one entry: none unless it is an amdgpu card; the total
/// V-RAM counter, or else the visible V-RAM counter.
pub open spec fn card_reading(c: DrmCard) -> Option<u64> {
    if is_card_name(c.name@) && is_amdgpu_spec(c) {
        if optional_reading(c.vram_used) is Some {
            optional_reading(c.vram_used)
        } else {
            optional_reading(c.vis_vram_used)
        }
    } else {
        None
    }
}

/// The larger of two optional readings; one that is missing does not count.
pub open spec fn max_reading(a: Option<u64>, b: Option<u64>) -> Option<u64> {
    match (a, b) {
        (Some(x), Some(y)) => Some(if x >= y { x } else { y }),
        (Some(x), None) => Some(x),
        (None, y) => y,
    }
}

pub fn merge_reading(a: Option<u64>, b: Option<u64>) -> (r: Option<u64>)
    ensures
        r == max_reading(a, b),
{
    match (a, b) {
        (Some(x), Some(y)) => Some(if x >= y { x } else { y }),
        (Some(x), None) => Some(x),
        (None, y) => y,
    }
}

pub open spec fn best_card_reading(cards: Seq<DrmCard>) -> Option<u64>
    decreases cards.len(),
{
    if cards.len() == 0 {
        None
    } else {
        max_reading(best_card_reading(cards.drop_last()), card_reading(cards.last()))
    }
}

fn is_card(n: &Vec<char>) -> (r: bool)
    ensures
        r == is_card_name(n@),
{
    if n.len() < 4 || n[0] != 'c' || n[1] != 'a' || n[2] != 'r' || n[3] != 'd' {
        assert(n@.len() >= 4 ==> n@.take(4)[0] == n@[0] && n@.take(4)[1] == n@[1]
            && n@.take(4)[2] == n@[2] && n@.take(4)[3] == n@[3]);
        return false;
    }
    assert(n@.take(4) =~= seq!['c', 'a', 'r', 'd']);
    let mut i: usize = 4;
    while i < n.len()
        invariant
            4 <= i <= n@.len(),
            forall|j: int| 4 <= j < i ==> is_digit(#[trigger] n@[j]),
        decreases n@.len() - i,
    {
        if !('0' <= n[i] && n[i] <= '9') {
            return false;
        }
        i += 1;
    }
    true
}

fn is_amdgpu(c: &DrmCard) -> (r: bool)
    ensures
        r == is_amdgpu_spec(*c),
{
    let by_driver = match &c.driver {
        Some(d) => {
            let v = chars_of(d.as_str());
            let r = v.len() == 6 && v[0] == 'a' && v[1] == 'm' && v[2] == 'd' && v[3] == 'g'
                && v[4] == 'p' && v[5] == 'u';
            assert(r ==> v@ =~= seq!['a', 'm', 'd', 'g', 'p', 'u']);
            r
        },
        None => false,
    };
    by_driver || match read_optional(&c.vendor) {
        Some(v) => v == AMD_VENDOR_ID,
        None => false,
    }
}

/// Device-wide V-RAM in use on the amdgpu cards among `cards` (the entries of
/// `/sys/class/drm`): the largest reading, or `None` if no card gives one.
pub fn query_vram_bytes_linux_drm_amdgpu(cards: &Vec<DrmCard>) -> (r: Option<u64>)
    ensures
        r == best_card_reading(cards@),
{
    let mut best: Option<u64> = None;
    let mut i: usize = 0;
    while i < cards.len()
        invariant
            i <= cards@.len(),
            best == best_card_reading(cards@.take(i as int)),
        decreases cards@.len() - i,
    {
        let c = &cards[i];
        let used = if is_card(&chars_of(c.name.as_str())) && is_amdgpu(c) {
            match read_optional(&c.vram_used) {
                Some(b) => Some(b),
                None => read_optional(&c.vis_vram_used),
            }
        } else {
            None
        };
        assert(cards@.take(i + 1).drop_last() =~= cards@.take(i as int));
        best = merge_reading(best, used);
        i += 1;
    }
    assert(cards@.take(cards@.len() as int) =~= cards@);
    best
}


/// A V-RAM reading, with the backend that gave it and what it covers.
#[derive(Debug, Clone, Copy)]
pub struct VideoRamInfo {
    /// Bytes reported by the backend.
    pub bytes: u64,
    /// Backend name, e.g. "NVML", "DXGI", "Metal".
    pub source: &'static str,
    /// Scope of the reading: "per-process", "adapter-wide" or "device-wide".
    pub scope: &'static str,
}

/// The probes, in the order in which they are tried.
#[derive(Debug, Clone, Copy, PartialEq, Eq, Structural)]
pub enum VramBackend {
    /// The NVIDIA management library, for this process.
    NvmlProcess,
    /// The amdgpu debug listings, for this process.
    AmdgpuDebugfs,
    /// The amdgpu counters of the DRM sysfs, for the whole device.
    LinuxDrm,
    /// DXGI's adapter memory query, for the whole adapter.
    Dxgi,
    /// Metal's allocation counter, for the whole device.
    Metal,
}

impl VramBackend {
    pub open spec fn source_spec(self) -> Seq<char> {
        match self {
            VramBackend::NvmlProcess => "NVML"@,
            VramBackend::AmdgpuDebugfs => "amdgpu-debugfs"@,
            VramBackend::LinuxDrm => "Linux DRM"@,
            VramBackend::Dxgi => "DXGI"@,
            VramBackend::Metal => "Metal"@,
        }
    }

    pub open spec fn scope_spec(self) -> Seq<char> {
        match self {
            VramBackend::NvmlProcess => "per-process"@,
            VramBackend::AmdgpuDebugfs => "per-process"@,
            VramBackend::LinuxDrm => "device-wide"@,
            VramBackend::Dxgi => "adapter-wide"@,
            VramBackend::Metal => "device-wide"@,
        }
    }

    /// Position in the order of preference, from 0.
    pub open spec fn rank(self) -> nat {
        match self {
            VramBackend::NvmlProcess => 0,
            VramBackend::AmdgpuDebugfs => 1,
            VramBackend::LinuxDrm => 2,
            VramBackend::Dxgi => 3,
            VramBackend::Metal => 4,
        }
    }

    pub open spec fn next_spec(self) -> Option<VramBackend> {
        match self {
            VramBackend::NvmlProcess => Some(VramBackend::AmdgpuDebugfs),
            VramBackend::AmdgpuDebugfs => Some(VramBackend::LinuxDrm),
            VramBackend::LinuxDrm => Some(VramBackend::Dxgi),
            VramBackend::Dxgi => Some(VramBackend::Metal),
            VramBackend::Metal => None,
        }
    }

    /// The most precise probe, tried first.
    pub fn first() -> (r: VramBackend)
        ensures
            r.rank() == 0,
    {
        VramBackend::NvmlProcess
    }

    /// The probe tried after this one, if any.
    pub fn next(self) -> (r: Option<VramBackend>)
        ensures
            r == self.next_spec(),
            r matches Some(n) ==> n.rank() == self.rank() + 1,
            r is None <==> self.rank() == 4,
    {
        match self {
            VramBackend::NvmlProcess => Some(VramBackend::AmdgpuDebugfs),
            VramBackend::AmdgpuDebugfs => Some(VramBackend::LinuxDrm),
            VramBackend::LinuxDrm => Some(VramBackend::Dxgi),
            VramBackend::Dxgi => Some(VramBackend::Metal),
            VramBackend::Metal => None,
        }
    }

    pub fn source(self) -> (r: &'static str)
        ensures
            r@ == self.source_spec(),
    {
        match self {
            VramBackend::NvmlProcess => "NVML",
            VramBackend::AmdgpuDebugfs => "amdgpu-debugfs",
            VramBackend::LinuxDrm => "Linux DRM",
            VramBackend::Dxgi => "DXGI",
            VramBackend::Metal => "Metal",
        }
    }

    pub fn scope(self) -> (r: &'static str)
        ensures
            r@ == self.scope_spec(),
    {
        match self {
            VramBackend::NvmlProcess => "per-process",
            VramBackend::AmdgpuDebugfs => "per-process",
            VramBackend::LinuxDrm => "device-wide",
            VramBackend::Dxgi => "adapter-wide",
            VramBackend::Metal => "device-wide",
        }
    }
}

/// What to do after one probe has run.
#[derive(Debug, Clone, Copy)]
pub enum ProbeStep {
    /// The probe gave a reading: stop with it.
    Found(VideoRamInfo),
    /// The probe gave nothing: run this one next.
    Next(VramBackend),
    /// Every probe has given nothing.
    Exhausted,
}

/// Decides, from what `backend` gave, whether the search stops with a reading,
/// goes on with the next probe, or ends without a reading.
pub fn probe_step(backend: VramBackend, reading: Option<u64>) -> (r: ProbeStep)
    ensures
        reading matches Some(b) ==> r matches ProbeStep::Found(info) && info.bytes == b
            && info.source@ == backend.source_spec() && info.scope@ == backend.scope_spec(),
        reading is None ==> match backend.next_spec() {
            Some(n) => r == ProbeStep::Next(n),
            None => r is Exhausted,
        },
{
    match reading {
        Some(bytes) => ProbeStep::Found(
            VideoRamInfo { bytes, source: backend.source(), scope: backend.scope() },
        ),
        None => match backend.next() {
            Some(n) => ProbeStep::Next(n),
            None => ProbeStep::Exhausted,
        },
    }
}

pub const MIB: u64 = 1048576;

pub const GIB: u64 = 1073741824;

/// `n / d` rounded to the nearest integer, ties to the even one.
pub open spec fn div_round_even(n: nat, d: nat) -> nat {
    let q = n / d;
    let r = n % d;
    if 2 * r > d {
        q + 1
    } else if 2 * r < d {
        q
    } else if q % 2 == 0 {
        q
    } else {
        q + 1
    }
}

/// `X.X GB` from one GiB on, in tenths of a GiB; `X MB` below, in whole MiB.
pub open spec fn fmt_bytes_spec(bytes: u64) -> Seq<char> {
    if bytes >= GIB {
        let t = div_round_even(bytes as nat * 10, GIB as nat);
        decimal(t / 10) + seq!['.'] + decimal(t % 10) + seq![' ', 'G', 'B']
    } else {
        decimal(div_round_even(bytes as nat, MIB as nat)) + seq![' ', 'M', 'B']
    }
}

fn round_even(n: u128, d: u128) -> (r: u128)
    requires
        d > 0,
        n <= 0xFFFF_FFFF_FFFF_FFFF_FFFF,
    ensures
        r == div_round_even(n as nat, d as nat),
{
    let q = n / d;
    let rem = n % d;
    if rem > d - rem {
        q + 1
    } else if rem < d - rem {
        q
    } else if q % 2 == 0 {
        q
    } else {
        q + 1
    }
}

/// A byte count for display: tenths of a GiB from one GiB on, else whole MiB.
pub fn fmt_bytes(bytes: u64) -> (r: String)
    ensures
        r@ == fmt_bytes_spec(bytes),
{
    let mut out: Vec<char> = Vec::new();
    if bytes >= GIB {
        let t = round_even(bytes as u128 * 10, GIB as u128);
        assert(t <= 0xFFFF_FFFF_FFFF_FFFF) by (nonlinear_arith)
            requires
                t == div_round_even(bytes as nat * 10, GIB as nat),
                bytes <= u64::MAX,
        {
            assert((bytes as nat * 10) / (GIB as nat) <= 184467440737);
        }
        push_decimal(&mut out, (t / 10) as u64);
        out.push('.');
        push_decimal(&mut out, (t % 10) as u64);
        out.push(' ');
        out.push('G');
        out.push('B');
    } else {
        let m = round_even(bytes as u128, MIB as u128);
        assert(m <= 1024) by (nonlinear_arith)
            requires
                m == div_round_even(bytes as nat, MIB as nat),
                bytes < GIB,
        {
            assert((bytes as nat) / (MIB as nat) <= 1023);
        }
        push_decimal(&mut out, m as u64);
        out.push(' ');
        out.push('M');
        out.push('B');
    }
    assert(out@ =~= fmt_bytes_spec(bytes));
    crate::text::string_from_chars(&out)
}

} // verus!
