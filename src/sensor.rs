//! Register writes that configure the image sensor. Each function plans a
//! sequence of `(register, value)` writes; the caller sends them over the
//! control bus in order.

use vstd::prelude::*;

verus! {

/// The register that selects a bank, and its two banks.
pub const BANK_SELECT: u8 = 0xFF;
pub const BANK_DSP: u8 = 0x00;
pub const BANK_SENSOR: u8 = 0x01;

/// Default quality setting; lower values give larger frames.
pub const DEFAULT_JPEG_QUALITY: u8 = 20;

/// The highest quality setting the encoder takes.
pub const MAX_QUALITY: u8 = 63;

/// The entry that ends a register table.
pub open spec fn is_terminator(e: (u8, u8)) -> bool {
    e.0 == 0xFF && e.1 == 0xFF
}

/// `n` is the number of entries of a register table before its first
/// terminator (all of them when it has none).
pub open spec fn table_body(t: Seq<(u8, u8)>, n: int) -> bool {
    0 <= n <= t.len() && (forall|j: int| 0 <= j < n ==> !#[trigger] is_terminator(t[j])) && (n
        < t.len() ==> is_terminator(t[n]))
}

/// A table's body has one length.
proof fn lemma_table_body_unique(t: Seq<(u8, u8)>, n: int, m: int)
    requires
        table_body(t, n),
        table_body(t, m),
    ensures
        n == m,
{
    if n < m {
        assert(!is_terminator(t[n]));
    } else if m < n {
        assert(!is_terminator(t[m]));
    }
}

/// The entries of a register table before its first terminator.
pub open spec fn table_entries(t: Seq<(u8, u8)>) -> Seq<(u8, u8)> {
    t.subrange(0, choose|n: int| table_body(t, n))
}

/// Number of entries of `table` before its first terminator.
pub fn table_prefix_len(table: &[(u8, u8)]) -> (r: usize)
    ensures
        table_body(table@, r as int),
        table_entries(table@) == table@.subrange(0, r as int),
{
    let r = table_prefix_scan(table);
    proof {
        let n = choose|n: int| table_body(table@, n);
        lemma_table_body_unique(table@, n, r as int);
    }
    r
}

/// Scans `table` for its first terminator.
fn table_prefix_scan(table: &[(u8, u8)]) -> (r: usize)
    ensures
        table_body(table@, r as int),
{
    let mut i: usize = 0;
    while i < table.len()
        invariant
            i <= table@.len(),
            forall|j: int| 0 <= j < i ==> !#[trigger] is_terminator(table@[j]),
        decreases table@.len() - i,
    {
        let (reg, val) = table[i];
        if reg == 0xFF && val == 0xFF {
            return i;
        }
        i = i + 1;
    }
    i
}

/// Appends the entries of `table` before its first terminator.
fn push_table(out: &mut Vec<(u8, u8)>, table: &[(u8, u8)])
    ensures
        final(out)@ == old(out)@ + table_entries(table@),
{
    let n = table_prefix_len(table);
    let mut i: usize = 0;
    while i < n
        invariant
            n <= table@.len(),
            i <= n,
            out@ == old(out)@ + table@.subrange(0, i as int),
        decreases n - i,
    {
        out.push(table[i]);
        assert(table@.subrange(0, i + 1) =~= table@.subrange(0, i as int).push(table@[i as int]));
        i = i + 1;
    }
}

/// The quality setting, clamped to the encoder's range.
pub fn clamp_quality(quality: u8) -> (r: u8)
    ensures
        r == if quality > MAX_QUALITY { MAX_QUALITY } else { quality },
{
    if quality > MAX_QUALITY {
        MAX_QUALITY
    } else {
        quality
    }
}

/// Software reset: select the sensor bank and set the reset bit of COM7.
pub fn reset_sequence() -> (r: Vec<(u8, u8)>)
    ensures
        r@ == seq![(BANK_SELECT, BANK_SENSOR), (0x12u8, 0x80u8)],
{
    let r = vec![(BANK_SELECT, BANK_SENSOR), (0x12u8, 0x80u8)];
    assert(r@ =~= seq![(BANK_SELECT, BANK_SENSOR), (0x12u8, 0x80u8)]);
    r
}

/// The JPEG base tables: the three tables in order, each up to its terminator.
pub fn jpeg_tables_sequence(init: &[(u8, u8)], yuv422: &[(u8, u8)], jpeg: &[(u8, u8)]) -> (r: Vec<
    (u8, u8),
>)
    ensures
        r@ == table_entries(init@) + table_entries(yuv422@) + table_entries(jpeg@),
{
    let mut out: Vec<(u8, u8)> = Vec::new();
    push_table(&mut out, init);
    push_table(&mut out, yuv422);
    push_table(&mut out, jpeg);
    assert(out@ =~= table_entries(init@) + table_entries(yuv422@) + table_entries(jpeg@));
    out
}

/// Output selector: the DSP bank's YUV422 path, which the JPEG pipeline
/// needs, with its automatic features on.
pub fn output_selector_sequence() -> (r: Vec<(u8, u8)>)
    ensures
        r@ == seq![(BANK_SELECT, BANK_DSP), (0xDAu8, 0x10u8), (0xD7u8, 0x03u8)],
{
    let r = vec![(BANK_SELECT, BANK_DSP), (0xDAu8, 0x10u8), (0xD7u8, 0x03u8)];
    assert(r@ =~= seq![(BANK_SELECT, BANK_DSP), (0xDAu8, 0x10u8), (0xD7u8, 0x03u8)]);
    r
}

/// Automatic white balance, gain and exposure back on (COM8 of the sensor bank).
pub fn auto_controls_sequence() -> (r: Vec<(u8, u8)>)
    ensures
        r@ == seq![(BANK_SELECT, BANK_SENSOR), (0x13u8, 0xE7u8)],
{
    let r = vec![(BANK_SELECT, BANK_SENSOR), (0x13u8, 0xE7u8)];
    assert(r@ =~= seq![(BANK_SELECT, BANK_SENSOR), (0x13u8, 0xE7u8)]);
    r
}

/// SVGA JPEG mode: the sensor bank with COM10 cleared, the resolution table
/// up to its terminator, then the DSP bank's quality register with the
/// quality clamped to the encoder's range.
pub fn svga_jpeg_sequence(table: &[(u8, u8)], quality: u8) -> (r: Vec<(u8, u8)>)
    ensures
        r@ == seq![(BANK_SELECT, BANK_SENSOR), (0x15u8, 0x00u8)] + table_entries(table@) + seq![
            (BANK_SELECT, BANK_DSP),
            (0x44u8, if quality > MAX_QUALITY { MAX_QUALITY } else { quality }),
        ],
{
    let q = clamp_quality(quality);
    let mut out: Vec<(u8, u8)> = vec![(BANK_SELECT, BANK_SENSOR), (0x15u8, 0x00u8)];
    push_table(&mut out, table);
    out.push((BANK_SELECT, BANK_DSP));
    out.push((0x44u8, q));
    assert(out@ =~= seq![(BANK_SELECT, BANK_SENSOR), (0x15u8, 0x00u8)] + table_entries(table@)
        + seq![(BANK_SELECT, BANK_DSP), (0x44u8, q)]);
    out
}

/// Register 0x04 of the sensor bank with vertical flip and its companion
/// VREF bit (0x40 and 0x10) set or cleared; the other bits are kept.
pub fn vflip_value(current: u8, enable: bool) -> (r: u8)
    ensures
        r & 0x50 == if enable { 0x50u8 } else { 0x00u8 },
        r & !0x50u8 == current & !0x50u8,
{
    if enable {
        let r = current | 0x50;
        assert(r & 0x50 == 0x50 && r & !0x50u8 == current & !0x50u8) by (bit_vector)
            requires r == current | 0x50;
        r
    } else {
        let r = current & !0x50;
        assert(r & 0x50 == 0 && r & !0x50u8 == current & !0x50u8) by (bit_vector)
            requires r == current & !0x50u8;
        r
    }
}

} // verus!
