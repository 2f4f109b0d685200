use errno::{set_errno, Errno};
use rucy_elfgen::emitter::{is_well_formed, Emitter};
use rucy_elfgen::error::GenerateError;
use rucy_elfgen::generate;
use rucy_elfgen::models::{Elf, ElfHeader, Section, SectionHeader, SectionHeaderData, SectionType};
use rucy_elfgen::models::{EM_BPF, ET_REL, SHF_ALLOC, SHF_EXECINSTR, SHF_WRITE, SHT_PROGBITS};
use rucy_elfgen::models::SHT_STRTAB;
use rucy_elfgen::protocol::{SinkReply, SinkRequest};
use rucy_elfgen::strtab::read_name;
use rucy_elfgen::template::document;

const PROGRAM: [u8; 16] = [0xb7, 0, 0, 0, 1, 0, 0, 0, 0x95, 0, 0, 0, 0, 0, 0, 0];

fn strtab() -> Section {
    Section::new(
        SectionType::StrTab,
        SectionHeader::new(".strtab".to_string(), 0, SHT_STRTAB, 0, 1),
        SectionHeaderData::Unset,
    )
}

fn license() -> Section {
    Section::new(
        SectionType::License,
        SectionHeader::new("license".to_string(), 0, SHT_PROGBITS, SHF_ALLOC | SHF_WRITE, 1),
        SectionHeaderData::Data(b"GPL\0".to_vec()),
    )
}

fn program() -> Section {
    Section::new(
        SectionType::Prog,
        SectionHeader::new("cgroup/dev".to_string(), 0, SHT_PROGBITS, SHF_ALLOC | SHF_EXECINSTR, 8),
        SectionHeaderData::Data(PROGRAM.to_vec()),
    )
}

fn small_document() -> Elf {
    Elf::new(ElfHeader::new(ET_REL, EM_BPF, 1), None, vec![strtab(), license(), program()])
}

/// Serves every request with `Accepted` and returns what was requested.
fn run_accepting(emitter: &mut Emitter) -> Vec<SinkRequest> {
    let mut requests = Vec::new();
    while let Some(request) = emitter.request() {
        requests.push(request);
        emitter.advance_with(SinkReply::Accepted);
    }
    requests
}

/// Accepts `count` requests, then rejects the next one with `code`.
fn reject_at(emitter: &mut Emitter, count: usize, code: i32) {
    for _ in 0..count {
        assert!(emitter.request().is_some());
        emitter.advance_with(SinkReply::Accepted);
    }
    assert!(emitter.request().is_some());
    emitter.advance_with(SinkReply::Rejected(code));
}

#[test]
fn relocatable_bpf_object_is_requested_in_order() {
    let mut emitter = Emitter::new(small_document()).unwrap();

    let mut expected = vec![0u8];
    for name in [".strtab", "license", "cgroup/dev"] {
        expected.extend_from_slice(name.as_bytes());
        expected.push(0);
    }
    assert_eq!(emitter.string_table(), &expected);
    assert_eq!(emitter.string_table(), &b"\0.strtab\0license\0cgroup/dev\0".to_vec());

    let requests = run_accepting(&mut emitter);
    assert_eq!(emitter.outcome(), Some(Ok(())));
    assert_eq!(requests.len(), 7);
    assert!(matches!(requests[0], SinkRequest::Open));
    match &requests[1] {
        SinkRequest::CommitHeader(ehdr) => {
            assert_eq!(ehdr.kind, 1);
            assert_eq!(ehdr.machine, 247);
            assert_eq!(ehdr.shstridx, 1);
        }
        other => panic!("header expected, got {:?}", other),
    }
    let payloads: [&[u8]; 3] = [&expected, b"GPL\0", &PROGRAM];
    let offsets = [1u32, 9, 17];
    let sizes = [28u64, 4, 16];
    for i in 0..3 {
        match &requests[2 + i] {
            SinkRequest::CommitSection(record) => {
                assert_eq!(record.data, payloads[i].to_vec());
                assert_eq!(record.size, payloads[i].len() as u64);
                assert_eq!(record.size, sizes[i]);
                assert_eq!(record.name, offsets[i]);
                assert_eq!(record.entsize, 0);
            }
            other => panic!("section expected, got {:?}", other),
        }
    }
    assert!(matches!(requests[5], SinkRequest::Finalize));
    assert!(matches!(requests[6], SinkRequest::Close));
}

#[test]
fn section_headers_follow_the_document() {
    let mut emitter = Emitter::new(small_document()).unwrap();
    let requests = run_accepting(&mut emitter);
    let expected = [(SHT_STRTAB, 0u64, 1u64), (SHT_PROGBITS, 3, 1), (SHT_PROGBITS, 6, 8)];
    for (i, (sh_type, flags, align)) in expected.iter().enumerate() {
        match &requests[2 + i] {
            SinkRequest::CommitSection(record) => {
                assert_eq!(record.sh_type, *sh_type);
                assert_eq!(record.flags, *flags);
                assert_eq!(record.addralign, *align);
            }
            other => panic!("section expected, got {:?}", other),
        }
    }
}

#[test]
fn generated_object_keeps_both_license_sections() {
    let mut emitter = generate();
    assert_eq!(
        emitter.string_table(),
        &b"\0.strtab\0license\0license\0cgroup/dev\0".to_vec()
    );
    assert_eq!(emitter.string_table().len(), 36);
    let doc = emitter.document();
    assert_eq!(doc.ehdr, ElfHeader::new(ET_REL, EM_BPF, 1));
    assert!(doc.phdr.is_none());
    assert!(doc.has_consistent_index());
    let offsets: Vec<u32> = doc.scns.iter().map(|s| s.header.name_idx).collect();
    assert_eq!(offsets, vec![1, 9, 17, 25]);
    let kinds: Vec<SectionType> = doc.scns.iter().map(|s| s.kind).collect();
    assert_eq!(
        kinds,
        vec![SectionType::StrTab, SectionType::License, SectionType::License, SectionType::Prog]
    );

    let requests = run_accepting(&mut emitter);
    assert_eq!(emitter.outcome(), Some(Ok(())));
    assert_eq!(requests.len(), 8);
    let sizes: Vec<u64> = requests
        .iter()
        .filter_map(|r| match r {
            SinkRequest::CommitSection(record) => Some(record.size),
            _ => None,
        })
        .collect();
    assert_eq!(sizes, vec![36, 4, 4, 16]);
}

#[test]
fn template_document_is_the_generated_one_before_the_table_pass() {
    let doc = document();
    assert_eq!(doc.scns.len(), 4);
    assert_eq!(doc.scns[0].header.name, ".strtab");
    assert_eq!(doc.scns[1].header.name, "license");
    assert_eq!(doc.scns[2].header.name, "license");
    assert_eq!(doc.scns[3].header.name, "cgroup/dev");
    assert!(doc.scns.iter().all(|s| s.header.name_idx == 0));
    assert!(matches!(&doc.scns[0].data, SectionHeaderData::Unset));
    assert!(matches!(&doc.scns[1].data, SectionHeaderData::Data(b) if b == &b"GPL\0".to_vec()));
    assert!(matches!(&doc.scns[2].data, SectionHeaderData::Data(b) if b == &b"GPL\0".to_vec()));
    assert!(matches!(&doc.scns[3].data, SectionHeaderData::Data(b) if b == &PROGRAM.to_vec()));
    assert_eq!(doc.scns[0].header.sh_type, 3);
    assert_eq!(doc.scns[1].header.flags, 3);
    assert_eq!(doc.scns[3].header.flags, 6);
    assert_eq!(doc.scns[3].header.align, 8);
}

#[test]
fn recorded_offsets_read_back_the_names() {
    let emitter = generate();
    let table = emitter.string_table();
    for scn in emitter.document().scns.iter() {
        let name = read_name(table, scn.header.name_idx as usize);
        assert_eq!(name, scn.header.name.as_bytes().to_vec());
    }
}

#[test]
fn section_sizes_are_the_lengths_of_what_is_written() {
    let mut emitter = generate();
    let table = emitter.string_table().clone();
    let mut seen = 0;
    while let Some(request) = emitter.request() {
        if let SinkRequest::CommitSection(record) = &request {
            assert_eq!(record.size, record.data.len() as u64);
            if record.sh_type == SHT_STRTAB {
                assert_eq!(record.data, table);
            }
            seen += 1;
        }
        emitter.advance_with(SinkReply::Accepted);
    }
    assert_eq!(seen, 4);
}

#[test]
fn header_index_is_the_position_of_the_string_table() {
    let doc = Elf::new(ElfHeader::new(ET_REL, EM_BPF, 2), None, vec![license(), strtab()]);
    assert!(doc.has_consistent_index());
    let mut emitter = Emitter::new(doc).unwrap();
    let requests = run_accepting(&mut emitter);
    let index = match &requests[1] {
        SinkRequest::CommitHeader(ehdr) => ehdr.shstridx as usize,
        other => panic!("header expected, got {:?}", other),
    };
    // requests[2..] are the sections at file positions 1, 2, ..
    let position = requests[2..]
        .iter()
        .position(|r| matches!(r, SinkRequest::CommitSection(rec) if rec.sh_type == SHT_STRTAB))
        .unwrap()
        + 1;
    assert_eq!(index, position);
    assert_eq!(index, 2);
}

#[test]
fn empty_name_in_a_document() {
    let unnamed = Section::new(
        SectionType::Prog,
        SectionHeader::new(String::new(), 0, SHT_PROGBITS, 0, 1),
        SectionHeaderData::Data(vec![7]),
    );
    let doc = Elf::new(ElfHeader::new(ET_REL, EM_BPF, 1), None, vec![strtab(), unnamed]);
    let emitter = Emitter::new(doc).unwrap();
    // the leading NUL, ".strtab" and its NUL, and the terminator of the empty name
    assert_eq!(emitter.string_table(), &b"\0.strtab\0\0".to_vec());
    let at = emitter.document().scns[1].header.name_idx as usize;
    assert_eq!(at, 9);
    assert_eq!(emitter.string_table()[at], 0);
    assert_eq!(read_name(emitter.string_table(), at), Vec::<u8>::new());
}

#[test]
fn symbol_table_is_refused() {
    let symtab = Section::new(
        SectionType::SymTab,
        SectionHeader::new(".symtab".to_string(), 0, 2, 0, 8),
        SectionHeaderData::SymTab(Vec::new()),
    );
    let doc = Elf::new(
        ElfHeader::new(ET_REL, EM_BPF, 1),
        None,
        vec![strtab(), license(), symtab, program()],
    );
    match Emitter::new(doc) {
        Err(e) => assert_eq!(e, GenerateError::UnsupportedSectionKind(SectionType::SymTab)),
        Ok(_) => panic!("a symbol table must be refused"),
    }
}

#[test]
fn null_section_is_refused() {
    let null = Section::new(
        SectionType::Null,
        SectionHeader::new(String::new(), 0, 0, 0, 0),
        SectionHeaderData::Unset,
    );
    let doc = Elf::new(ElfHeader::new(ET_REL, EM_BPF, 2), None, vec![null, strtab()]);
    assert!(matches!(
        Emitter::new(doc),
        Err(GenerateError::UnsupportedSectionKind(SectionType::Null))
    ));
}

#[test]
fn sink_that_does_not_open_fails_the_generation() {
    let mut emitter = generate();
    assert!(matches!(emitter.request(), Some(SinkRequest::Open)));
    assert_eq!(emitter.outcome(), None);
    emitter.advance_with(SinkReply::Rejected(2));
    assert!(emitter.request().is_none());
    assert_eq!(emitter.outcome(), Some(Err(GenerateError::SinkInitFailed(2))));
}

#[test]
fn rejected_header_is_reported_after_the_release() {
    let mut emitter = generate();
    reject_at(&mut emitter, 1, 22);
    assert_eq!(emitter.outcome(), None);
    assert!(matches!(emitter.request(), Some(SinkRequest::Close)));
    emitter.advance_with(SinkReply::Accepted);
    assert!(emitter.request().is_none());
    assert_eq!(emitter.outcome(), Some(Err(GenerateError::HeaderCommitFailed(22))));
}

#[test]
fn rejected_section_is_reported_after_the_release() {
    for at in 2..6 {
        let mut emitter = generate();
        reject_at(&mut emitter, at, 5);
        assert!(matches!(emitter.request(), Some(SinkRequest::Close)));
        emitter.advance_with(SinkReply::Accepted);
        assert_eq!(emitter.outcome(), Some(Err(GenerateError::SectionCommitFailed(5))));
    }
}

#[test]
fn rejected_finalize_is_reported_after_the_release() {
    let mut emitter = generate();
    reject_at(&mut emitter, 6, 28);
    assert!(matches!(emitter.request(), Some(SinkRequest::Close)));
    emitter.advance_with(SinkReply::Accepted);
    assert_eq!(emitter.outcome(), Some(Err(GenerateError::FinalizeFailed(28))));
}

#[test]
fn failed_release_after_a_failure_keeps_the_first_error() {
    let mut emitter = generate();
    reject_at(&mut emitter, 3, 5);
    emitter.advance_with(SinkReply::Rejected(9));
    assert!(emitter.request().is_none());
    assert_eq!(emitter.outcome(), Some(Err(GenerateError::SectionCommitFailed(5))));
}

#[test]
fn failed_release_after_success_is_a_finalize_failure() {
    let mut emitter = generate();
    reject_at(&mut emitter, 7, 9);
    assert!(emitter.request().is_none());
    assert_eq!(emitter.outcome(), Some(Err(GenerateError::FinalizeFailed(9))));
}

#[test]
fn finished_generation_stays_finished() {
    let mut emitter = generate();
    run_accepting(&mut emitter);
    emitter.advance_with(SinkReply::Rejected(1));
    emitter.advance_with(SinkReply::Accepted);
    assert!(emitter.request().is_none());
    assert_eq!(emitter.outcome(), Some(Ok(())));

    let mut failed = generate();
    failed.advance_with(SinkReply::Rejected(13));
    failed.advance_with(SinkReply::Accepted);
    failed.advance_with(SinkReply::Rejected(1));
    assert_eq!(failed.outcome(), Some(Err(GenerateError::SinkInitFailed(13))));
}

#[test]
fn document_of_the_string_table_alone() {
    let doc = Elf::new(ElfHeader::new(ET_REL, EM_BPF, 1), None, vec![strtab()]);
    let mut emitter = Emitter::new(doc).unwrap();
    assert_eq!(emitter.string_table(), &b"\0.strtab\0".to_vec());
    let requests = run_accepting(&mut emitter);
    assert_eq!(requests.len(), 5);
    assert!(matches!(requests[0], SinkRequest::Open));
    assert!(matches!(requests[1], SinkRequest::CommitHeader(_)));
    assert!(matches!(&requests[2], SinkRequest::CommitSection(r) if r.size == 9));
    assert!(matches!(requests[3], SinkRequest::Finalize));
    assert!(matches!(requests[4], SinkRequest::Close));
    assert_eq!(emitter.outcome(), Some(Ok(())));
}

#[test]
fn request_does_not_move_the_generation() {
    let mut emitter = generate();
    emitter.advance_with(SinkReply::Accepted);
    emitter.advance_with(SinkReply::Accepted);
    let first = emitter.request();
    let second = emitter.request();
    match (first, second) {
        (Some(SinkRequest::CommitSection(a)), Some(SinkRequest::CommitSection(b))) => {
            assert_eq!(a.data, b.data);
            assert_eq!(a.name, b.name);
        }
        other => panic!("two section requests expected, got {:?}", other),
    }
}

#[test]
fn accepted_advance_moves_on() {
    let mut emitter = generate();
    emitter.advance(true);
    assert!(matches!(emitter.request(), Some(SinkRequest::CommitHeader(_))));
}

#[test]
fn rejected_advance_takes_the_code_of_the_thread() {
    let mut emitter = generate();
    emitter.advance(true);
    set_errno(Errno(13));
    emitter.advance(false);
    assert!(matches!(emitter.request(), Some(SinkRequest::Close)));
    emitter.advance(true);
    assert_eq!(emitter.outcome(), Some(Err(GenerateError::HeaderCommitFailed(13))));

    let mut emitter = generate();
    set_errno(Errno(2));
    emitter.advance(false);
    assert_eq!(emitter.outcome(), Some(Err(GenerateError::SinkInitFailed(2))));
}

#[test]
fn well_formed_documents_carry_the_bytes_of_license_and_program() {
    assert!(is_well_formed(&small_document()));
    assert!(is_well_formed(&document()));
    let bare = Section::new(
        SectionType::License,
        SectionHeader::new("license".to_string(), 0, SHT_PROGBITS, 0, 1),
        SectionHeaderData::Unset,
    );
    let doc = Elf::new(ElfHeader::new(ET_REL, EM_BPF, 1), None, vec![strtab(), bare]);
    assert!(!is_well_formed(&doc));
}

#[test]
fn well_formedness_does_not_depend_on_the_kinds() {
    let symtab = Section::new(
        SectionType::SymTab,
        SectionHeader::new(".symtab".to_string(), 0, 2, 0, 8),
        SectionHeaderData::Unset,
    );
    let doc = Elf::new(ElfHeader::new(ET_REL, EM_BPF, 1), None, vec![strtab(), symtab]);
    assert!(is_well_formed(&doc));
    assert!(matches!(
        Emitter::new(doc),
        Err(GenerateError::UnsupportedSectionKind(SectionType::SymTab))
    ));
}

#[test]
fn well_formed_documents_name_their_string_table() {
    let at = |shstridx: u16, scns: Vec<Section>| {
        is_well_formed(&Elf::new(ElfHeader::new(ET_REL, EM_BPF, shstridx), None, scns))
    };
    assert!(at(1, vec![strtab(), license()]));
    assert!(at(2, vec![license(), strtab()]));
    assert!(!at(2, vec![strtab(), license()]));
    assert!(!at(0, vec![strtab(), license()]));
    assert!(!at(1, vec![strtab(), strtab()]));
    assert!(!at(1, vec![license()]));
    assert!(!at(0, Vec::new()));
}
