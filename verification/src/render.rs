//! Byte-level rendering of what the mapping service writes and where.
//!
//! The service writes the line `"<id_inside_ns> <id_outside_ns> <length>\n"`
//! into a kernel-exposed mapping file under the target process's numeric
//! directory. This module renders those lines and paths as bytes, with exact
//! specifications, so the service's file writes are pinned down to the byte.

use vstd::prelude::*;

verus! {

/// The decimal digits of `n`, most significant first, as ASCII bytes.
pub open spec fn dec_digits(n: nat) -> Seq<u8>
    decreases n,
{
    if n < 10 {
        seq![(48 + n) as u8]
    } else {
        dec_digits(n / 10).push((48 + n % 10) as u8)
    }
}

/// Render `n` in decimal ASCII, most significant digit first.
pub fn render_u32(n: u32) -> (r: Vec<u8>)
    ensures
        r@ == dec_digits(n as nat),
    decreases n,
{
    if n < 10 {
        let mut v: Vec<u8> = Vec::new();
        v.push(48 + n as u8);
        proof {
            assert(v@ =~= dec_digits(n as nat));
        }
        v
    } else {
        let mut v = render_u32(n / 10);
        v.push(48 + (n % 10) as u8);
        proof {
            assert(v@ =~= dec_digits(n as nat));
        }
        v
    }
}

/// The bytes of `"/proc/"`.
pub open spec fn proc_prefix() -> Seq<u8> {
    seq![47u8, 112u8, 114u8, 111u8, 99u8, 47u8]
}

/// The bytes of `"/setgroups"`.
pub open spec fn setgroups_suffix() -> Seq<u8> {
    seq![47u8, 115u8, 101u8, 116u8, 103u8, 114u8, 111u8, 117u8, 112u8, 115u8]
}

/// The bytes of `"/gid_map"`.
pub open spec fn gid_map_suffix() -> Seq<u8> {
    seq![47u8, 103u8, 105u8, 100u8, 95u8, 109u8, 97u8, 112u8]
}

/// The bytes of `"/uid_map"`.
pub open spec fn uid_map_suffix() -> Seq<u8> {
    seq![47u8, 117u8, 105u8, 100u8, 95u8, 109u8, 97u8, 112u8]
}

/// The bytes of `"deny"`, the value written to a `setgroups` control file.
pub open spec fn deny_bytes() -> Seq<u8> {
    seq![100u8, 101u8, 110u8, 121u8]
}

/// The kernel directory of process `pid`: `"/proc/<pid>"`.
pub open spec fn spec_proc_dir(pid: u32) -> Seq<u8> {
    proc_prefix() + dec_digits(pid as nat)
}

/// The `setgroups` control file of process `pid`.
pub open spec fn spec_setgroups_path(pid: u32) -> Seq<u8> {
    spec_proc_dir(pid) + setgroups_suffix()
}

/// The `gid_map` file of process `pid`.
pub open spec fn spec_gid_map_path(pid: u32) -> Seq<u8> {
    spec_proc_dir(pid) + gid_map_suffix()
}

/// The `uid_map` file of process `pid`.
pub open spec fn spec_uid_map_path(pid: u32) -> Seq<u8> {
    spec_proc_dir(pid) + uid_map_suffix()
}

/// The single mapping line `"<id_inside_ns> <id_outside_ns> <length>\n"`.
pub open spec fn spec_map_line(id_inside_ns: u32, id_outside_ns: u32, length: u32) -> Seq<u8> {
    dec_digits(id_inside_ns as nat) + seq![32u8] + dec_digits(id_outside_ns as nat) + seq![32u8]
        + dec_digits(length as nat) + seq![10u8]
}

/// The path `"/proc/<pid>"` as bytes.
pub fn proc_dir(pid: u32) -> (r: Vec<u8>)
    ensures
        r@ == spec_proc_dir(pid),
{
    let mut v: Vec<u8> = Vec::new();
    v.push(47);  // '/'
    v.push(112);  // 'p'
    v.push(114);  // 'r'
    v.push(111);  // 'o'
    v.push(99);  // 'c'
    v.push(47);  // '/'
    let mut digits = render_u32(pid);
    v.append(&mut digits);
    proof {
        assert(v@ =~= spec_proc_dir(pid));
    }
    v
}

/// The path `"/proc/<pid>/setgroups"` as bytes.
pub fn setgroups_path(pid: u32) -> (r: Vec<u8>)
    ensures
        r@ == spec_setgroups_path(pid),
{
    let mut v = proc_dir(pid);
    v.push(47);  // '/'
    v.push(115);  // 's'
    v.push(101);  // 'e'
    v.push(116);  // 't'
    v.push(103);  // 'g'
    v.push(114);  // 'r'
    v.push(111);  // 'o'
    v.push(117);  // 'u'
    v.push(112);  // 'p'
    v.push(115);  // 's'
    proof {
        assert(v@ =~= spec_setgroups_path(pid));
    }
    v
}

/// The path `"/proc/<pid>/gid_map"` as bytes.
pub fn gid_map_path(pid: u32) -> (r: Vec<u8>)
    ensures
        r@ == spec_gid_map_path(pid),
{
    let mut v = proc_dir(pid);
    v.push(47);  // '/'
    v.push(103);  // 'g'
    v.push(105);  // 'i'
    v.push(100);  // 'd'
    v.push(95);  // '_'
    v.push(109);  // 'm'
    v.push(97);  // 'a'
    v.push(112);  // 'p'
    proof {
        assert(v@ =~= spec_gid_map_path(pid));
    }
    v
}

/// The path `"/proc/<pid>/uid_map"` as bytes.
pub fn uid_map_path(pid: u32) -> (r: Vec<u8>)
    ensures
        r@ == spec_uid_map_path(pid),
{
    let mut v = proc_dir(pid);
    v.push(47);  // '/'
    v.push(117);  // 'u'
    v.push(105);  // 'i'
    v.push(100);  // 'd'
    v.push(95);  // '_'
    v.push(109);  // 'm'
    v.push(97);  // 'a'
    v.push(112);  // 'p'
    proof {
        assert(v@ =~= spec_uid_map_path(pid));
    }
    v
}

/// The value written to a `setgroups` control file: `"deny"`.
pub fn deny_value() -> (r: Vec<u8>)
    ensures
        r@ == deny_bytes(),
{
    let mut v: Vec<u8> = Vec::new();
    v.push(100);  // 'd'
    v.push(101);  // 'e'
    v.push(110);  // 'n'
    v.push(121);  // 'y'
    proof {
        assert(v@ =~= deny_bytes());
    }
    v
}

/// The mapping line `"<id_inside_ns> <id_outside_ns> <length>\n"` as bytes.
pub fn map_line(id_inside_ns: u32, id_outside_ns: u32, length: u32) -> (r: Vec<u8>)
    ensures
        r@ == spec_map_line(id_inside_ns, id_outside_ns, length),
{
    let mut v = render_u32(id_inside_ns);
    v.push(32);  // ' '
    let mut outside = render_u32(id_outside_ns);
    v.append(&mut outside);
    v.push(32);  // ' '
    let mut len = render_u32(length);
    v.append(&mut len);
    v.push(10);  // '\n'
    proof {
        assert(v@ =~= spec_map_line(id_inside_ns, id_outside_ns, length));
    }
    v
}

} // verus!
