use vstd::prelude::*;

verus! {

/// The terminal mode flags that the keypress mode changes, as plain words, and the first two
/// control characters.
#[derive(Debug, Clone, Copy, PartialEq, Eq, Structural)]
pub struct TermFlags {
    pub input_flags: u32,
    pub output_flags: u32,
    pub local_flags: u32,
    pub control_flags: u32,
    pub control_char0: u8,
    pub control_char1: u8,
}

/// The bits of the terminal flags that the keypress mode uses, as the caller reads them from
/// the platform (`nix::sys::termios`).
#[derive(Debug, Clone, Copy, PartialEq, Eq, Structural)]
pub struct KeypressBits {
    pub ignbrk: u32,
    pub brkint: u32,
    pub parmrk: u32,
    pub istrip: u32,
    pub inlcr: u32,
    pub igncr: u32,
    pub icrnl: u32,
    pub ixon: u32,
    pub opost: u32,
    pub echo: u32,
    pub echonl: u32,
    pub icanon: u32,
    pub isig: u32,
    pub iexten: u32,
    pub csize: u32,
    pub parenb: u32,
    pub cs8: u32,
}

/// The input bits the keypress mode clears.
pub open spec fn input_cleared(b: KeypressBits) -> u32 {
    b.ignbrk | b.brkint | b.parmrk | b.istrip | b.inlcr | b.igncr | b.icrnl | b.ixon
}

/// The local bits the keypress mode clears.
pub open spec fn local_cleared(b: KeypressBits) -> u32 {
    b.echo | b.echonl | b.icanon | b.isig | b.iexten
}

/// The terminal flags in keypress mode: input arrives byte by byte, unprocessed and without
/// echo, as 8-bit characters without parity.
pub open spec fn keypress_flags(t: TermFlags, b: KeypressBits) -> TermFlags {
    TermFlags {
        input_flags: t.input_flags & !input_cleared(b),
        output_flags: t.output_flags & !b.opost,
        local_flags: t.local_flags & !local_cleared(b),
        control_flags: (t.control_flags & !(b.csize | b.parenb)) | b.cs8,
        control_char0: 0,
        control_char1: 0,
    }
}

/// Puts the terminal flags `t` in keypress mode.
pub fn set_keypress_mode(t: &mut TermFlags, b: KeypressBits)
    ensures
        *final(t) == keypress_flags(*old(t), b),
{
    t.input_flags = t.input_flags & !(b.ignbrk | b.brkint | b.parmrk | b.istrip | b.inlcr | b.igncr | b.icrnl | b.ixon);
    t.output_flags = t.output_flags & !b.opost;
    t.local_flags = t.local_flags & !(b.echo | b.echonl | b.icanon | b.isig | b.iexten);
    t.control_flags = t.control_flags & !(b.csize | b.parenb);
    t.control_flags = t.control_flags | b.cs8;
    t.control_char0 = 0;
    t.control_char1 = 0;
}

/// Putting flags in keypress mode twice is the same as once.
pub proof fn lemma_keypress_idempotent(t: TermFlags, b: KeypressBits)
    ensures
        keypress_flags(keypress_flags(t, b), b) == keypress_flags(t, b),
{
    let k = keypress_flags(t, b);
    let i = input_cleared(b);
    let l = local_cleared(b);
    let x = t.input_flags;
    let y = t.output_flags;
    let z = t.local_flags;
    let w = t.control_flags;
    let o = b.opost;
    let m = b.csize | b.parenb;
    let c = b.cs8;
    assert((x & !i) & !i == x & !i) by (bit_vector);
    assert((y & !o) & !o == y & !o) by (bit_vector);
    assert((z & !l) & !l == z & !l) by (bit_vector);
    assert(((((w & !m) | c) & !m) | c) == ((w & !m) | c)) by (bit_vector);
}

} // verus!
