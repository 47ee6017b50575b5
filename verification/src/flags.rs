//! The namespace flag set and its two renderings.
//!
//! A [`NsFlags`] value selects which namespaces the sandbox child is created
//! in. It is rendered in two ways: as the kernel's clone-flag bit mask, and
//! as the command-line words with which the launcher re-invokes itself as
//! the sandbox child. The word rendering is paired with a parser, and
//! parsing the rendered words gives the flag set back.

use vstd::prelude::*;

verus! {

/// Kernel clone-flag bit: new mount namespace.
pub const CLONE_NEWNS_BIT: u64 = 0x00020000;

/// Kernel clone-flag bit: new UTS (hostname) namespace.
pub const CLONE_NEWUTS_BIT: u64 = 0x04000000;

/// Kernel clone-flag bit: new IPC namespace.
pub const CLONE_NEWIPC_BIT: u64 = 0x08000000;

/// Kernel clone-flag bit: new user namespace.
pub const CLONE_NEWUSER_BIT: u64 = 0x10000000;

/// Kernel clone-flag bit: new PID namespace.
pub const CLONE_NEWPID_BIT: u64 = 0x20000000;

/// Kernel clone-flag bit: new network namespace.
pub const CLONE_NEWNET_BIT: u64 = 0x40000000;

/// The set of namespaces to create for the sandbox child. Creating a user
/// namespace is what makes identity mapping necessary.
#[derive(Clone, Copy, Debug, PartialEq, Eq, Structural)]
pub struct NsFlags {
    pub ipc: bool,
    pub mount: bool,
    pub network: bool,
    pub pid: bool,
    pub uts: bool,
    pub user: bool,
}

/// The empty selection: no new namespaces.
pub open spec fn spec_no_flags() -> NsFlags {
    NsFlags { ipc: false, mount: false, network: false, pid: false, uts: false, user: false }
}

impl NsFlags {
    /// The empty selection: no new namespaces.
    pub fn none() -> (r: NsFlags)
        ensures
            r == spec_no_flags(),
    {
        NsFlags { ipc: false, mount: false, network: false, pid: false, uts: false, user: false }
    }
}

/// The clone-flag bit mask that selects the namespaces in `f`.
pub open spec fn spec_clone_bits(f: NsFlags) -> u64 {
    (if f.ipc {
        CLONE_NEWIPC_BIT
    } else {
        0
    }) | (if f.mount {
        CLONE_NEWNS_BIT
    } else {
        0
    }) | (if f.network {
        CLONE_NEWNET_BIT
    } else {
        0
    }) | (if f.pid {
        CLONE_NEWPID_BIT
    } else {
        0
    }) | (if f.uts {
        CLONE_NEWUTS_BIT
    } else {
        0
    }) | (if f.user {
        CLONE_NEWUSER_BIT
    } else {
        0
    })
}

/// Turn the flag selection into the kernel's clone-flag bit mask.
pub fn prepare_clone_flags(f: &NsFlags) -> (r: u64)
    ensures
        r == spec_clone_bits(*f),
{
    (if f.ipc {
        CLONE_NEWIPC_BIT
    } else {
        0
    }) | (if f.mount {
        CLONE_NEWNS_BIT
    } else {
        0
    }) | (if f.network {
        CLONE_NEWNET_BIT
    } else {
        0
    }) | (if f.pid {
        CLONE_NEWPID_BIT
    } else {
        0
    }) | (if f.uts {
        CLONE_NEWUTS_BIT
    } else {
        0
    }) | (if f.user {
        CLONE_NEWUSER_BIT
    } else {
        0
    })
}

/// The bytes of `"--ipc"`.
pub open spec fn ipc_word() -> Seq<u8> {
    seq![45u8, 45u8, 105u8, 112u8, 99u8]
}

/// The bytes of `"--mount"`.
pub open spec fn mount_word() -> Seq<u8> {
    seq![45u8, 45u8, 109u8, 111u8, 117u8, 110u8, 116u8]
}

/// The bytes of `"--network"`.
pub open spec fn network_word() -> Seq<u8> {
    seq![45u8, 45u8, 110u8, 101u8, 116u8, 119u8, 111u8, 114u8, 107u8]
}

/// The bytes of `"--pid"`.
pub open spec fn pid_word() -> Seq<u8> {
    seq![45u8, 45u8, 112u8, 105u8, 100u8]
}

/// The bytes of `"--uts"`.
pub open spec fn uts_word() -> Seq<u8> {
    seq![45u8, 45u8, 117u8, 116u8, 115u8]
}

/// The bytes of `"--user"`.
pub open spec fn user_word() -> Seq<u8> {
    seq![45u8, 45u8, 117u8, 115u8, 101u8, 114u8]
}

/// The words that serialize `f` on the sandbox child's command line, in the
/// fixed order ipc, mount, network, pid, uts, user; an unselected namespace
/// contributes no word.
pub open spec fn spec_flag_words(f: NsFlags) -> Seq<Seq<u8>> {
    (if f.ipc {
        seq![ipc_word()]
    } else {
        Seq::empty()
    }) + (if f.mount {
        seq![mount_word()]
    } else {
        Seq::empty()
    }) + (if f.network {
        seq![network_word()]
    } else {
        Seq::empty()
    }) + (if f.pid {
        seq![pid_word()]
    } else {
        Seq::empty()
    }) + (if f.uts {
        seq![uts_word()]
    } else {
        Seq::empty()
    }) + (if f.user {
        seq![user_word()]
    } else {
        Seq::empty()
    })
}

/// The views of a vector of byte words.
pub open spec fn words_view(args: Seq<Vec<u8>>) -> Seq<Seq<u8>> {
    args.map_values(|v: Vec<u8>| v@)
}

fn push_dashes(v: &mut Vec<u8>)
    ensures
        final(v)@ == old(v)@ + seq![45u8, 45u8],
{
    v.push(45);  // '-'
    v.push(45);  // '-'
    proof {
        assert(v@ =~= old(v)@ + seq![45u8, 45u8]);
    }
}

/// The word `"--ipc"` as bytes.
pub fn word_ipc() -> (r: Vec<u8>)
    ensures
        r@ == ipc_word(),
{
    let mut v: Vec<u8> = Vec::new();
    push_dashes(&mut v);
    v.push(105);  // 'i'
    v.push(112);  // 'p'
    v.push(99);  // 'c'
    proof {
        assert(v@ =~= ipc_word());
    }
    v
}

/// The word `"--mount"` as bytes.
pub fn word_mount() -> (r: Vec<u8>)
    ensures
        r@ == mount_word(),
{
    let mut v: Vec<u8> = Vec::new();
    push_dashes(&mut v);
    v.push(109);  // 'm'
    v.push(111);  // 'o'
    v.push(117);  // 'u'
    v.push(110);  // 'n'
    v.push(116);  // 't'
    proof {
        assert(v@ =~= mount_word());
    }
    v
}

/// The word `"--network"` as bytes.
pub fn word_network() -> (r: Vec<u8>)
    ensures
        r@ == network_word(),
{
    let mut v: Vec<u8> = Vec::new();
    push_dashes(&mut v);
    v.push(110);  // 'n'
    v.push(101);  // 'e'
    v.push(116);  // 't'
    v.push(119);  // 'w'
    v.push(111);  // 'o'
    v.push(114);  // 'r'
    v.push(107);  // 'k'
    proof {
        assert(v@ =~= network_word());
    }
    v
}

/// The word `"--pid"` as bytes.
pub fn word_pid() -> (r: Vec<u8>)
    ensures
        r@ == pid_word(),
{
    let mut v: Vec<u8> = Vec::new();
    push_dashes(&mut v);
    v.push(112);  // 'p'
    v.push(105);  // 'i'
    v.push(100);  // 'd'
    proof {
        assert(v@ =~= pid_word());
    }
    v
}

/// The word `"--uts"` as bytes.
pub fn word_uts() -> (r: Vec<u8>)
    ensures
        r@ == uts_word(),
{
    let mut v: Vec<u8> = Vec::new();
    push_dashes(&mut v);
    v.push(117);  // 'u'
    v.push(116);  // 't'
    v.push(115);  // 's'
    proof {
        assert(v@ =~= uts_word());
    }
    v
}

/// The word `"--user"` as bytes.
pub fn word_user() -> (r: Vec<u8>)
    ensures
        r@ == user_word(),
{
    let mut v: Vec<u8> = Vec::new();
    push_dashes(&mut v);
    v.push(117);  // 'u'
    v.push(115);  // 's'
    v.push(101);  // 'e'
    v.push(114);  // 'r'
    proof {
        assert(v@ =~= user_word());
    }
    v
}

/// The flag words of `f`, in the fixed order.
pub fn flag_words(f: &NsFlags) -> (r: Vec<Vec<u8>>)
    ensures
        words_view(r@) == spec_flag_words(*f),
{
    let mut v: Vec<Vec<u8>> = Vec::new();
    if f.ipc {
        v.push(word_ipc());
    }
    if f.mount {
        v.push(word_mount());
    }
    if f.network {
        v.push(word_network());
    }
    if f.pid {
        v.push(word_pid());
    }
    if f.uts {
        v.push(word_uts());
    }
    if f.user {
        v.push(word_user());
    }
    proof {
        assert(words_view(v@) =~= spec_flag_words(*f));
    }
    v
}

/// Whether two byte vectors hold the same bytes.
pub fn bytes_eq(a: &Vec<u8>, b: &Vec<u8>) -> (r: bool)
    ensures
        r == (a@ == b@),
{
    if a.len() != b.len() {
        return false;
    }
    let mut i: usize = 0;
    while i < a.len()
        invariant
            i <= a.len(),
            a.len() == b.len(),
            forall|j: int| 0 <= j < i ==> a@[j] == b@[j],
        decreases a.len() - i,
    {
        if a[i] != b[i] {
            return false;
        }
        i += 1;
    }
    proof {
        assert(a@ =~= b@);
    }
    true
}

/// One parsed word folded into the flag set: each of the six flag words
/// selects its namespace, and any other word is rejected.
pub open spec fn spec_apply_word(w: Seq<u8>, acc: NsFlags) -> Option<NsFlags> {
    if w == ipc_word() {
        Some(NsFlags { ipc: true, ..acc })
    } else if w == mount_word() {
        Some(NsFlags { mount: true, ..acc })
    } else if w == network_word() {
        Some(NsFlags { network: true, ..acc })
    } else if w == pid_word() {
        Some(NsFlags { pid: true, ..acc })
    } else if w == uts_word() {
        Some(NsFlags { uts: true, ..acc })
    } else if w == user_word() {
        Some(NsFlags { user: true, ..acc })
    } else {
        None
    }
}

fn apply_word(w: &Vec<u8>, acc: NsFlags) -> (r: Option<NsFlags>)
    ensures
        r == spec_apply_word(w@, acc),
{
    if bytes_eq(w, &word_ipc()) {
        Some(NsFlags { ipc: true, ..acc })
    } else if bytes_eq(w, &word_mount()) {
        Some(NsFlags { mount: true, ..acc })
    } else if bytes_eq(w, &word_network()) {
        Some(NsFlags { network: true, ..acc })
    } else if bytes_eq(w, &word_pid()) {
        Some(NsFlags { pid: true, ..acc })
    } else if bytes_eq(w, &word_uts()) {
        Some(NsFlags { uts: true, ..acc })
    } else if bytes_eq(w, &word_user()) {
        Some(NsFlags { user: true, ..acc })
    } else {
        None
    }
}

/// The words folded left to right into `acc`: `Some` of the selection they
/// spell if every word is a flag word, `None` otherwise.
pub open spec fn spec_parse_words(ws: Seq<Seq<u8>>, acc: NsFlags) -> Option<NsFlags>
    decreases ws.len(),
{
    if ws.len() <= 0 {
        Some(acc)
    } else {
        match spec_apply_word(ws[0], acc) {
            Some(a) => spec_parse_words(ws.drop_first(), a),
            None => None,
        }
    }
}

fn parse_words_from(args: &Vec<Vec<u8>>, i: usize, acc: NsFlags) -> (r: Option<NsFlags>)
    requires
        i <= args.len(),
    ensures
        r == spec_parse_words(words_view(args@).subrange(i as int, args@.len() as int), acc),
    decreases args.len() - i,
{
    if i == args.len() {
        proof {
            assert(words_view(args@).subrange(i as int, args@.len() as int)
                =~= Seq::<Seq<u8>>::empty());
        }
        Some(acc)
    } else {
        let step = apply_word(&args[i], acc);
        proof {
            let ws = words_view(args@).subrange(i as int, args@.len() as int);
            assert(ws[0] == args@[i as int]@);
            assert(ws.drop_first() =~= words_view(args@).subrange(
                i as int + 1,
                args@.len() as int,
            ));
        }
        match step {
            None => None,
            Some(a) => parse_words_from(args, i + 1, a),
        }
    }
}

/// Parse a command line's flag words back into the selection they spell:
/// `Some` exactly when every word is one of the six flag words.
pub fn parse_flag_words(args: &Vec<Vec<u8>>) -> (r: Option<NsFlags>)
    ensures
        r == spec_parse_words(words_view(args@), spec_no_flags()),
{
    proof {
        assert(words_view(args@).subrange(0, args@.len() as int) =~= words_view(args@));
    }
    parse_words_from(args, 0, NsFlags::none())
}

proof fn lemma_parse_words_append(ws1: Seq<Seq<u8>>, ws2: Seq<Seq<u8>>, acc: NsFlags)
    ensures
        spec_parse_words(ws1 + ws2, acc) == (match spec_parse_words(ws1, acc) {
            Some(a) => spec_parse_words(ws2, a),
            None => None,
        }),
    decreases ws1.len(),
{
    if ws1.len() == 0 {
        assert(ws1 + ws2 =~= ws2);
    } else {
        assert((ws1 + ws2)[0] == ws1[0]);
        assert((ws1 + ws2).drop_first() =~= ws1.drop_first() + ws2);
        match spec_apply_word(ws1[0], acc) {
            Some(a) => {
                lemma_parse_words_append(ws1.drop_first(), ws2, a);
            },
            None => {
            },
        }
    }
}

proof fn lemma_parse_single(w: Seq<u8>, acc: NsFlags)
    requires
        spec_apply_word(w, acc) is Some,
    ensures
        spec_parse_words(seq![w], acc) == spec_apply_word(w, acc),
{
    assert(seq![w].len() == 1);
    assert(seq![w][0] == w);
    assert(seq![w].drop_first() =~= Seq::<Seq<u8>>::empty());
    match spec_apply_word(w, acc) {
        Some(a) => {
            assert(spec_parse_words(Seq::<Seq<u8>>::empty(), a) == Some(a));
            assert(spec_parse_words(seq![w], acc) == spec_parse_words(
                seq![w].drop_first(),
                a,
            ));
        },
        None => {
        },
    }
}

/// Serialization and parsing of the flag words are inverse: the sandbox
/// child parses back exactly the namespace selection that the launcher
/// serialized onto its command line.
pub proof fn lemma_flag_words_parse_back(f: NsFlags)
    ensures
        spec_parse_words(spec_flag_words(f), spec_no_flags()) == Some(f),
{
    let a0 = spec_no_flags();
    let p1: Seq<Seq<u8>> = if f.ipc {
        seq![ipc_word()]
    } else {
        Seq::empty()
    };
    let p2: Seq<Seq<u8>> = if f.mount {
        seq![mount_word()]
    } else {
        Seq::empty()
    };
    let p3: Seq<Seq<u8>> = if f.network {
        seq![network_word()]
    } else {
        Seq::empty()
    };
    let p4: Seq<Seq<u8>> = if f.pid {
        seq![pid_word()]
    } else {
        Seq::empty()
    };
    let p5: Seq<Seq<u8>> = if f.uts {
        seq![uts_word()]
    } else {
        Seq::empty()
    };
    let p6: Seq<Seq<u8>> = if f.user {
        seq![user_word()]
    } else {
        Seq::empty()
    };
    // The six flag words are pairwise distinct: most pairs differ in
    // length, and the pairs of equal length differ at their third byte.
    assert(ipc_word().len() == 5);
    assert(mount_word().len() == 7);
    assert(network_word().len() == 9);
    assert(pid_word().len() == 5);
    assert(uts_word().len() == 5);
    assert(user_word().len() == 6);
    assert(pid_word()[2] != ipc_word()[2]);
    assert(uts_word()[2] != ipc_word()[2]);
    assert(uts_word()[2] != pid_word()[2]);
    assert(mount_word() != ipc_word());
    assert(network_word() != ipc_word());
    assert(network_word() != mount_word());
    assert(pid_word() != ipc_word());
    assert(pid_word() != mount_word());
    assert(pid_word() != network_word());
    assert(uts_word() != ipc_word());
    assert(uts_word() != mount_word());
    assert(uts_word() != network_word());
    assert(uts_word() != pid_word());
    assert(user_word() != ipc_word());
    assert(user_word() != mount_word());
    assert(user_word() != network_word());
    assert(user_word() != pid_word());
    assert(user_word() != uts_word());
    let a1 = if f.ipc {
        NsFlags { ipc: true, ..a0 }
    } else {
        a0
    };
    let a2 = if f.mount {
        NsFlags { mount: true, ..a1 }
    } else {
        a1
    };
    let a3 = if f.network {
        NsFlags { network: true, ..a2 }
    } else {
        a2
    };
    let a4 = if f.pid {
        NsFlags { pid: true, ..a3 }
    } else {
        a3
    };
    let a5 = if f.uts {
        NsFlags { uts: true, ..a4 }
    } else {
        a4
    };
    let a6 = if f.user {
        NsFlags { user: true, ..a5 }
    } else {
        a5
    };
    if f.ipc {
        assert(spec_apply_word(ipc_word(), a0) == Some(a1));
        lemma_parse_single(ipc_word(), a0);
    }
    assert(spec_parse_words(p1, a0) == Some(a1));
    if f.mount {
        assert(spec_apply_word(mount_word(), a1) == Some(a2));
        lemma_parse_single(mount_word(), a1);
    }
    assert(spec_parse_words(p2, a1) == Some(a2));
    if f.network {
        assert(spec_apply_word(network_word(), a2) == Some(a3));
        lemma_parse_single(network_word(), a2);
    }
    assert(spec_parse_words(p3, a2) == Some(a3));
    if f.pid {
        assert(spec_apply_word(pid_word(), a3) == Some(a4));
        lemma_parse_single(pid_word(), a3);
    }
    assert(spec_parse_words(p4, a3) == Some(a4));
    if f.uts {
        assert(spec_apply_word(uts_word(), a4) == Some(a5));
        lemma_parse_single(uts_word(), a4);
    }
    assert(spec_parse_words(p5, a4) == Some(a5));
    if f.user {
        assert(spec_apply_word(user_word(), a5) == Some(a6));
        lemma_parse_single(user_word(), a5);
    }
    assert(spec_parse_words(p6, a5) == Some(a6));
    lemma_parse_words_append(p1, p2, a0);
    lemma_parse_words_append(p1 + p2, p3, a0);
    lemma_parse_words_append(p1 + p2 + p3, p4, a0);
    lemma_parse_words_append(p1 + p2 + p3 + p4, p5, a0);
    lemma_parse_words_append(p1 + p2 + p3 + p4 + p5, p6, a0);
    assert(spec_flag_words(f) == p1 + p2 + p3 + p4 + p5 + p6);
    assert(a6 == f);
}

} // verus!
