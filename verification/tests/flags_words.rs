use userns_child_exec::flags::{bytes_eq, flag_words, parse_flag_words, prepare_clone_flags,
    NsFlags, CLONE_NEWIPC_BIT, CLONE_NEWNET_BIT, CLONE_NEWNS_BIT, CLONE_NEWPID_BIT,
    CLONE_NEWUSER_BIT, CLONE_NEWUTS_BIT};
use userns_child_exec::init_shell::{expand_words, is_space_byte, reap_step, ReapStep, WaitOutcome};

fn all_flags() -> NsFlags {
    NsFlags { ipc: true, mount: true, network: true, pid: true, uts: true, user: true }
}

#[test]
fn clone_bits_match_the_kernel_constants() {
    assert_eq!(prepare_clone_flags(&NsFlags::none()), 0);
    let user_only = NsFlags { user: true, ..NsFlags::none() };
    assert_eq!(prepare_clone_flags(&user_only), 0x10000000);
    assert_eq!(
        prepare_clone_flags(&all_flags()),
        CLONE_NEWIPC_BIT | CLONE_NEWNS_BIT | CLONE_NEWNET_BIT | CLONE_NEWPID_BIT
            | CLONE_NEWUTS_BIT | CLONE_NEWUSER_BIT
    );
    assert_eq!(prepare_clone_flags(&all_flags()), 0x7c020000);
}

#[test]
fn flag_words_render_in_fixed_order() {
    assert_eq!(flag_words(&NsFlags::none()), Vec::<Vec<u8>>::new());
    let some = NsFlags { mount: true, pid: true, user: true, ..NsFlags::none() };
    assert_eq!(
        flag_words(&some),
        vec![b"--mount".to_vec(), b"--pid".to_vec(), b"--user".to_vec()]
    );
    assert_eq!(
        flag_words(&all_flags()),
        vec![
            b"--ipc".to_vec(),
            b"--mount".to_vec(),
            b"--network".to_vec(),
            b"--pid".to_vec(),
            b"--uts".to_vec(),
            b"--user".to_vec(),
        ]
    );
}

#[test]
fn parsing_serialized_words_gives_the_selection_back() {
    let cases = vec![
        NsFlags::none(),
        all_flags(),
        NsFlags { user: true, ..NsFlags::none() },
        NsFlags { ipc: true, network: true, uts: true, ..NsFlags::none() },
    ];
    for f in cases {
        assert_eq!(parse_flag_words(&flag_words(&f)), Some(f));
    }
}

#[test]
fn unknown_words_are_rejected() {
    assert_eq!(parse_flag_words(&vec![b"--verbose".to_vec()]), None);
    assert_eq!(parse_flag_words(&vec![b"--user".to_vec(), b"".to_vec()]), None);
}

#[test]
fn byte_equality_is_exact() {
    assert!(bytes_eq(&b"deny".to_vec(), &b"deny".to_vec()));
    assert!(!bytes_eq(&b"deny".to_vec(), &b"den".to_vec()));
    assert!(!bytes_eq(&b"deny".to_vec(), &b"dent".to_vec()));
}

#[test]
fn empty_command_line_expands_to_none() {
    assert_eq!(expand_words(&Vec::new()), None);
}

#[test]
fn command_lines_split_on_whitespace() {
    assert_eq!(
        expand_words(&b"echo hi".to_vec()),
        Some(vec![b"echo".to_vec(), b"hi".to_vec()])
    );
    assert_eq!(
        expand_words(&b"  ls\t-l  /tmp \n".to_vec()),
        Some(vec![b"ls".to_vec(), b"-l".to_vec(), b"/tmp".to_vec()])
    );
    // All-whitespace input yields no words at all.
    assert_eq!(expand_words(&b"   ".to_vec()), Some(Vec::new()));
}

#[test]
fn space_bytes_are_ascii_whitespace() {
    for b in [b' ', b'\t', b'\n', b'\r', 0x0b, 0x0c] {
        assert!(is_space_byte(b));
    }
    for b in [b'a', b'0', b'-', 0u8, 127] {
        assert!(!is_space_byte(b));
    }
}

#[test]
fn reaping_stops_only_when_no_children_remain() {
    assert_eq!(reap_step(&WaitOutcome::NoChildren), ReapStep::Stop);
    assert_eq!(reap_step(&WaitOutcome::WaitError), ReapStep::Continue);
    assert_eq!(reap_step(&WaitOutcome::ChildExited(7)), ReapStep::Continue);
    assert_eq!(reap_step(&WaitOutcome::ChildStopped(7)), ReapStep::Continue);
    assert_eq!(reap_step(&WaitOutcome::OtherChange), ReapStep::Continue);
}
