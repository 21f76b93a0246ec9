use vstd::prelude::*;

verus! {

/// The UTF-16 code units of one character: the character itself below
/// 0x10000, else a surrogate pair for the offset from 0x10000.
pub open spec fn char_units(c: char) -> Seq<u16> {
    let v = c as int;
    if v < 0x10000 {
        seq![v as u16]
    } else {
        let w = v - 0x10000;
        seq![(0xD800 + w / 0x400) as u16, (0xDC00 + w % 0x400) as u16]
    }
}

/// The UTF-16 code units of a string, in order.
pub open spec fn utf16_of(s: Seq<char>) -> Seq<u16>
    decreases s.len(),
{
    if s.len() == 0 {
        Seq::empty()
    } else {
        char_units(s[0]) + utf16_of(s.drop_first())
    }
}

/// Relies on `str::encode_utf16`: the string's UTF-16 code units, in order.
#[verifier::external_body]
fn encode_utf16(s: &str) -> (r: Vec<u16>)
    ensures
        r@ == utf16_of(s@),
{
    s.encode_utf16().collect()
}

/// How many units fit before the terminating zero.
pub open spec fn units_kept(units: Seq<u16>, dst_len: int) -> int {
    if units.len() < dst_len - 1 {
        units.len() as int
    } else {
        dst_len - 1
    }
}

/// `dst` after a zero-terminated copy of `units` into it: as many units as
/// fit before a final zero, then the zero, then what `dst` held after it.
pub open spec fn copied_units(units: Seq<u16>, dst: Seq<u16>) -> Seq<u16> {
    let n = units_kept(units, dst.len() as int);
    units.subrange(0, n) + seq![0u16] + dst.subrange(n + 1, dst.len() as int)
}

/// The same copy into a buffer of signed 16-bit units.
pub open spec fn copied_units_i16(units: Seq<u16>, dst: Seq<i16>) -> Seq<i16> {
    let n = units_kept(units, dst.len() as int);
    units.subrange(0, n).map_values(|u: u16| u as i16) + seq![0i16] + dst.subrange(
        n + 1,
        dst.len() as int,
    )
}

/// Copies `units` into `dst`, cut so that a terminating zero fits.
pub fn copy_units_into_u16(units: &[u16], dst: &mut [u16])
    requires
        old(dst)@.len() >= 1,
    ensures
        final(dst)@ == copied_units(units@, old(dst)@),
{
    let n = dst.len();
    let mut i: usize = 0;
    while i < units.len() && i < n - 1
        invariant
            n == dst@.len(),
            n == old(dst)@.len(),
            n >= 1,
            i <= units@.len(),
            i <= n - 1,
            forall|j: int| 0 <= j < i ==> dst@[j] == units@[j],
            forall|j: int| i <= j < n ==> dst@[j] == old(dst)@[j],
        decreases units@.len() - i,
    {
        dst[i] = units[i];
        i = i + 1;
    }
    dst[i] = 0;
    assert(i == units_kept(units@, n as int));
    assert(dst@ =~= copied_units(units@, old(dst)@));
}

/// Copies `units` into `dst` as signed units, cut so that a terminating zero
/// fits.
pub fn copy_units_into_i16(units: &[u16], dst: &mut [i16])
    requires
        old(dst)@.len() >= 1,
    ensures
        final(dst)@ == copied_units_i16(units@, old(dst)@),
{
    let n = dst.len();
    let mut i: usize = 0;
    while i < units.len() && i < n - 1
        invariant
            n == dst@.len(),
            n == old(dst)@.len(),
            n >= 1,
            i <= units@.len(),
            i <= n - 1,
            forall|j: int| 0 <= j < i ==> dst@[j] == units@[j] as i16,
            forall|j: int| i <= j < n ==> dst@[j] == old(dst)@[j],
        decreases units@.len() - i,
    {
        dst[i] = units[i] as i16;
        i = i + 1;
    }
    dst[i] = 0;
    assert(i == units_kept(units@, n as int));
    assert(dst@ =~= copied_units_i16(units@, old(dst)@));
}

/// Writes `src` into `dst` as zero-terminated UTF-16, cut where it does not
/// fit.
pub fn string_copy_into_u16(src: &str, dst: &mut [u16])
    requires
        old(dst)@.len() >= 1,
    ensures
        final(dst)@ == copied_units(utf16_of(src@), old(dst)@),
{
    let units = encode_utf16(src);
    copy_units_into_u16(units.as_slice(), dst);
}

/// Writes `src` into `dst` as zero-terminated UTF-16 in signed units, cut
/// where it does not fit.
pub fn string_copy_into_i16(src: &str, dst: &mut [i16])
    requires
        old(dst)@.len() >= 1,
    ensures
        final(dst)@ == copied_units_i16(utf16_of(src@), old(dst)@),
{
    let units = encode_utf16(src);
    copy_units_into_i16(units.as_slice(), dst);
}

/// Relies on `str::chars`: the string's characters, in order.
#[verifier::external_body]
fn chars_of(s: &str) -> (r: Vec<char>)
    ensures
        r@ == s@,
{
    s.chars().collect()
}

/// `text` as an array of 8-bit characters, each character cut to its low
/// eight bits, with zeros after it. The text must fit.
pub fn string_to_fixed_width<const LEN: usize>(text: &str) -> (r: [i8; LEN])
    requires
        text@.len() <= LEN,
    ensures
        forall|i: int| 0 <= i < text@.len() ==> r@[i] == #[trigger] text@[i] as i8,
        forall|i: int| text@.len() <= i < LEN ==> r@[i] == 0,
{
    let chars = chars_of(text);
    let mut a: [i8; LEN] = [0i8; LEN];
    let mut i: usize = 0;
    while i < chars.len()
        invariant
            chars@ == text@,
            chars@.len() <= LEN,
            i <= chars@.len(),
            forall|j: int| 0 <= j < i ==> a@[j] == #[trigger] chars@[j] as i8,
            forall|j: int| i <= j < LEN ==> a@[j] == 0,
        decreases chars@.len() - i,
    {
        a[i] = chars[i] as i8;
        i = i + 1;
    }
    a
}

/// `text` as zero-terminated UTF-16 in an array of signed units, cut where
/// it does not fit, zeros after it.
pub fn string_to_fixed_width_i16<const LEN: usize>(text: &str) -> (r: [i16; LEN])
    requires
        LEN >= 1,
    ensures
        r@ == copied_units_i16(utf16_of(text@), Seq::new(LEN as nat, |i: int| 0i16)),
{
    let mut a: [i16; LEN] = [0i16; LEN];
    assert(a@ =~= Seq::new(LEN as nat, |i: int| 0i16));
    string_copy_into_i16(text, &mut a);
    a
}

/// Widens each 8-bit character to 16 bits.
pub fn char8_to_16<const LEN: usize>(text: &[i8; LEN]) -> (r: [i16; LEN])
    ensures
        forall|i: int| 0 <= i < LEN ==> r@[i] == text@[i] as i16,
{
    let mut a: [i16; LEN] = [0i16; LEN];
    let mut i: usize = 0;
    while i < LEN
        invariant
            i <= LEN,
            forall|j: int| 0 <= j < i ==> a@[j] == text@[j] as i16,
        decreases LEN - i,
    {
        a[i] = text[i] as i16;
        i = i + 1;
    }
    a
}

} // verus!
