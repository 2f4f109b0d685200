//! The one object that the library generates: a relocatable eBPF object with
//! a string table, a license and a small program for a device cgroup.

use crate::emitter::Emitter;
use crate::layout::{all_supported, validation};
use crate::layout::lemma_validation;
use crate::models::{Elf, ElfHeader, ElfView, PayloadView, Section, SectionHeader};
use crate::models::{SectionHeaderData, SectionHeaderView, SectionType, SectionView};
use crate::models::{EM_BPF, ET_REL, SHF_ALLOC, SHF_EXECINSTR, SHF_WRITE, SHT_PROGBITS, SHT_STRTAB};
use crate::models::index_consistent;
use crate::protocol::{consistent, initial, well_formed};
use crate::strtab::{names_size, section_names, string_table};
use crate::strtab::law_table_shape;
use vstd::pervasive::unreached;
use vstd::prelude::*;
use vstd::string::StringExecFns;
use vstd::utf8::{is_ascii_chars, is_ascii_chars_encode_utf8};

verus! {

/// The license text of the object: `GPL` and its NUL terminator.
pub open spec fn license_text() -> Seq<u8> {
    seq![0x47u8, 0x50u8, 0x4cu8, 0x00u8]
}

/// The program of the object, two eBPF instructions: `r0 = 1` and `exit`.
pub open spec fn program_text() -> Seq<u8> {
    seq![
        0xb7u8, 0x00u8, 0x00u8, 0x00u8, 0x01u8, 0x00u8, 0x00u8, 0x00u8,
        0x95u8, 0x00u8, 0x00u8, 0x00u8, 0x00u8, 0x00u8, 0x00u8, 0x00u8,
    ]
}

/// The string-table section of the object; its bytes are the table itself.
pub open spec fn strtab_section() -> SectionView {
    SectionView {
        kind: SectionType::StrTab,
        header: SectionHeaderView {
            name: ".strtab"@,
            name_idx: 0,
            sh_type: SHT_STRTAB,
            flags: 0,
            align: 1,
        },
        data: PayloadView::Unset,
    }
}

/// A license section of the object.
pub open spec fn license_section() -> SectionView {
    SectionView {
        kind: SectionType::License,
        header: SectionHeaderView {
            name: "license"@,
            name_idx: 0,
            sh_type: SHT_PROGBITS,
            flags: SHF_ALLOC | SHF_WRITE,
            align: 1,
        },
        data: PayloadView::Data(license_text()),
    }
}

/// The program section of the object.
pub open spec fn program_section() -> SectionView {
    SectionView {
        kind: SectionType::Prog,
        header: SectionHeaderView {
            name: "cgroup/dev"@,
            name_idx: 0,
            sh_type: SHT_PROGBITS,
            flags: SHF_ALLOC | SHF_EXECINSTR,
            align: 8,
        },
        data: PayloadView::Data(program_text()),
    }
}

/// What [`document`] builds: a relocatable eBPF file whose sections are the
/// string table, the license twice, and the program. The string table is the
/// first section after the reserved null section.
pub open spec fn document_view() -> ElfView {
    ElfView {
        ehdr: ElfHeader { kind: ET_REL, machine: EM_BPF, shstridx: 1 },
        phdr: None,
        scns: seq![strtab_section(), license_section(), license_section(), program_section()],
    }
}

fn strtab() -> (scn: Section)
    ensures
        scn@ == strtab_section(),
{
    let header = SectionHeader::new(String::from_str(".strtab"), 0, SHT_STRTAB, 0, 1);
    Section::new(SectionType::StrTab, header, SectionHeaderData::Unset)
}

fn license() -> (scn: Section)
    ensures
        scn@ == license_section(),
{
    let header = SectionHeader::new(
        String::from_str("license"),
        0,
        SHT_PROGBITS,
        SHF_ALLOC | SHF_WRITE,
        1,
    );
    let text: Vec<u8> = vec![0x47u8, 0x50u8, 0x4cu8, 0x00u8];
    assert(text@ =~= license_text());
    Section::new(SectionType::License, header, SectionHeaderData::Data(text))
}

fn program() -> (scn: Section)
    ensures
        scn@ == program_section(),
{
    let header = SectionHeader::new(
        String::from_str("cgroup/dev"),
        0,
        SHT_PROGBITS,
        SHF_ALLOC | SHF_EXECINSTR,
        8,
    );
    let text: Vec<u8> = vec![
        0xb7u8, 0x00u8, 0x00u8, 0x00u8, 0x01u8, 0x00u8, 0x00u8, 0x00u8,
        0x95u8, 0x00u8, 0x00u8, 0x00u8, 0x00u8, 0x00u8, 0x00u8, 0x00u8,
    ];
    assert(text@ =~= program_text());
    Section::new(SectionType::Prog, header, SectionHeaderData::Data(text))
}

/// Builds the document of the object.
pub fn document() -> (doc: Elf)
    ensures
        doc@ == document_view(),
{
    let mut scns: Vec<Section> = Vec::new();
    scns.push(strtab());
    scns.push(license());
    scns.push(license());
    scns.push(program());
    let doc = Elf::new(ElfHeader::new(ET_REL, EM_BPF, 1), None, scns);
    assert(doc@.scns =~= document_view().scns);
    doc
}

/// The names of the document's sections are plain ASCII of 7, 7, 7 and 10 bytes.
pub proof fn lemma_document_names()
    ensures
        section_names(document_view().scns).len() == 4,
        section_names(document_view().scns)[0].len() == 7,
        section_names(document_view().scns)[1].len() == 7,
        section_names(document_view().scns)[2].len() == 7,
        section_names(document_view().scns)[3].len() == 10,
{
    reveal_strlit(".strtab");
    reveal_strlit("license");
    reveal_strlit("cgroup/dev");
    assert(is_ascii_chars(".strtab"@));
    assert(is_ascii_chars("license"@));
    assert(is_ascii_chars("cgroup/dev"@));
    is_ascii_chars_encode_utf8(".strtab"@);
    is_ascii_chars_encode_utf8("license"@);
    is_ascii_chars_encode_utf8("cgroup/dev"@);
}

/// The document passes every check: its kinds are supported, its
/// license and program carry bytes, its string table has 36 bytes, and its
/// header names the string table.
pub proof fn lemma_document_valid()
    ensures
        well_formed(document_view()),
        all_supported(document_view().scns),
        validation(document_view().scns) is Ok,
        index_consistent(document_view()),
        string_table(section_names(document_view().scns)).len() == 36,
{
    let names = section_names(document_view().scns);
    lemma_document_names();
    law_table_shape(names);
    let three = names.drop_last();
    let two = three.drop_last();
    let one = two.drop_last();
    assert(names_size(one.drop_last()) == 0);
    assert(names_size(one) == 8);
    assert(names_size(two) == 16);
    assert(names_size(three) == 24);
    assert(names_size(names) == 35);
    lemma_validation(document_view().scns);
}

/// Starts a generation of the object. The sink has not been asked anything
/// yet: the first request is to open it.
pub fn generate() -> (emitter: Emitter)
    ensures
        emitter@ == initial(document_view()),
        consistent(emitter@),
{
    let doc = document();
    proof {
        lemma_document_valid();
    }
    match Emitter::new(doc) {
        Ok(emitter) => emitter,
        Err(_) => unreached(),
    }
}

} // verus!
