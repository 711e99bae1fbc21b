//! Fields inside the block of bytes that is an encoder configuration.

use vstd::prelude::*;
use crate::sys::{Guid, NvEncConfig, NV_ENC_CONFIG_VER};

verus! {

/// A 32-bit number as bytes, lowest first.
pub open spec fn le32(x: u32) -> Seq<u8> {
    seq![
        (x % 0x100) as u8,
        (x / 0x100 % 0x100) as u8,
        (x / 0x1_0000 % 0x100) as u8,
        (x / 0x100_0000) as u8,
    ]
}

/// A 16-bit number as bytes, lowest first.
pub open spec fn le16(x: u16) -> Seq<u8> {
    seq![(x % 0x100) as u8, (x / 0x100) as u8]
}

/// The number that bytes stand for, lowest first.
pub open spec fn number_of(s: Seq<u8>) -> int
    decreases s.len(),
{
    if s.len() == 0 {
        0
    } else {
        s[0] + 0x100 * number_of(s.drop_first())
    }
}

/// An identifier as it lies in memory.
pub open spec fn guid_bytes(g: Guid) -> Seq<u8> {
    le32(g.data1) + le16(g.data2) + le16(g.data3) + g.data4@
}

/// `block` with `new` in place of what was at `off`.
pub open spec fn patched(block: Seq<u8>, off: int, new: Seq<u8>) -> Seq<u8> {
    Seq::new(
        block.len(),
        |i: int|
            if off <= i < off + new.len() {
                new[i - off]
            } else {
                block[i]
            },
    )
}

fn bytes_of_u32(x: u32) -> (b: [u8; 4])
    ensures
        b@ == le32(x),
{
    let b = [
        (x % 0x100) as u8,
        (x / 0x100 % 0x100) as u8,
        (x / 0x1_0000 % 0x100) as u8,
        (x / 0x100_0000) as u8,
    ];
    assert(b@ =~= le32(x));
    b
}

fn bytes_of_u16(x: u16) -> (b: [u8; 2])
    ensures
        b@ == le16(x),
{
    let b = [(x % 0x100) as u8, (x / 0x100) as u8];
    assert(b@ =~= le16(x));
    b
}

/// Writes bytes into a configuration.
fn write_at(cfg: &mut NvEncConfig, off: usize, new: &[u8])
    requires
        off + new@.len() <= 3584,
    ensures
        final(cfg).bytes@ == patched(old(cfg).bytes@, off as int, new@),
{
    let mut i: usize = 0;
    while i < new.len()
        invariant
            i <= new@.len(),
            off + new@.len() <= 3584,
            cfg.bytes@ == patched(old(cfg).bytes@, off as int, new@.take(i as int)),
        decreases new@.len() - i,
    {
        cfg.bytes[off + i] = new[i];
        i = i + 1;
        assert(cfg.bytes@ =~= patched(old(cfg).bytes@, off as int, new@.take(i as int)));
    }
    assert(new@.take(i as int) =~= new@);
}

/// Writes a number into a configuration, lowest byte first.
pub fn write_u32_at(cfg: &mut NvEncConfig, off: usize, value: u32)
    requires
        off + 4 <= 3584,
    ensures
        final(cfg).bytes@ == patched(old(cfg).bytes@, off as int, le32(value)),
{
    let b = bytes_of_u32(value);
    write_at(cfg, off, &b);
}

/// Writes an identifier into a configuration.
pub fn write_guid_at(cfg: &mut NvEncConfig, off: usize, guid: Guid)
    requires
        off + 16 <= 3584,
    ensures
        final(cfg).bytes@ == patched(old(cfg).bytes@, off as int, guid_bytes(guid)),
{
    let a = bytes_of_u32(guid.data1);
    let b = bytes_of_u16(guid.data2);
    let c = bytes_of_u16(guid.data3);
    write_at(cfg, off, &a);
    write_at(cfg, off + 4, &b);
    write_at(cfg, off + 6, &c);
    write_at(cfg, off + 8, &guid.data4);
    assert(cfg.bytes@ =~= patched(old(cfg).bytes@, off as int, guid_bytes(guid)));
}

/// A configuration before the driver fills it in: zeros, and the version stamp.
pub open spec fn blank_config() -> Seq<u8> {
    patched(Seq::new(3584, |i: int| 0u8), 0, le32(NV_ENC_CONFIG_VER))
}

/// A configuration for a profile, made from what the driver filled in.
pub open spec fn profile_config(filled: Seq<u8>, profile: Guid) -> Seq<u8> {
    patched(patched(filled, 0, le32(NV_ENC_CONFIG_VER)), 4, guid_bytes(profile))
}

pub(crate) fn make_blank_config() -> (cfg: NvEncConfig)
    ensures
        cfg.bytes@ == blank_config(),
{
    let mut cfg = NvEncConfig::default();
    assert(cfg.bytes@ =~= Seq::new(3584, |i: int| 0u8));
    write_u32_at(&mut cfg, 0, NV_ENC_CONFIG_VER);
    cfg
}

pub(crate) fn make_profile_config(filled: NvEncConfig, profile: Guid) -> (cfg: NvEncConfig)
    ensures
        cfg.bytes@ == profile_config(filled.bytes@, profile),
{
    let mut cfg = filled;
    write_u32_at(&mut cfg, 0, NV_ENC_CONFIG_VER);
    write_guid_at(&mut cfg, 4, profile);
    cfg
}

/// What is written can be read back, and the bytes around it are untouched.
pub proof fn written_bytes_read_back(block: Seq<u8>, off: int, new: Seq<u8>)
    requires
        0 <= off,
        off + new.len() <= block.len(),
    ensures
        patched(block, off, new).len() == block.len(),
        patched(block, off, new).subrange(off, off + new.len()) =~= new,
        patched(block, off, new).take(off) =~= block.take(off),
        patched(block, off, new).skip(off + new.len()) =~= block.skip(off + new.len()),
{
}

/// The bytes of a number stand for that number.
pub proof fn number_bytes_stand_for_it(x: u32, y: u16)
    ensures
        number_of(le32(x)) == x,
        number_of(le16(y)) == y,
{
    reveal_with_fuel(number_of, 5);
    let s = le32(x);
    assert(s.drop_first() =~= seq![s[1], s[2], s[3]]);
    assert(s.drop_first().drop_first() =~= seq![s[2], s[3]]);
    assert(s.drop_first().drop_first().drop_first() =~= seq![s[3]]);
    assert(s.drop_first().drop_first().drop_first().drop_first() =~= Seq::empty());
    let t = le16(y);
    assert(t.drop_first() =~= seq![t[1]]);
    assert(t.drop_first().drop_first() =~= Seq::empty());
}

/// A configuration for a profile starts with the version stamp, then has the profile,
/// and is otherwise what the driver filled in.
pub proof fn profile_config_layout(filled: Seq<u8>, profile: Guid)
    requires
        filled.len() == 3584,
    ensures
        profile_config(filled, profile).len() == 3584,
        number_of(profile_config(filled, profile).take(4)) == NV_ENC_CONFIG_VER,
        profile_config(filled, profile).subrange(4, 20) =~= guid_bytes(profile),
        profile_config(filled, profile).skip(20) =~= filled.skip(20),
{
    number_bytes_stand_for_it(NV_ENC_CONFIG_VER, 0);
    assert(profile_config(filled, profile).take(4) =~= le32(NV_ENC_CONFIG_VER));
}

/// An identifier lies in memory field by field, each number lowest byte first.
pub proof fn guid_fields_in_order(g: Guid)
    ensures
        guid_bytes(g).len() == 16,
        number_of(guid_bytes(g).subrange(0, 4)) == g.data1,
        number_of(guid_bytes(g).subrange(4, 6)) == g.data2,
        number_of(guid_bytes(g).subrange(6, 8)) == g.data3,
        guid_bytes(g).subrange(8, 16) =~= g.data4@,
{
    number_bytes_stand_for_it(g.data1, g.data2);
    number_bytes_stand_for_it(g.data1, g.data3);
    assert(guid_bytes(g).subrange(0, 4) =~= le32(g.data1));
    assert(guid_bytes(g).subrange(4, 6) =~= le16(g.data2));
    assert(guid_bytes(g).subrange(6, 8) =~= le16(g.data3));
}

} // verus!
