//! From a section of the document to the record that goes to disk: which
//! bytes the section carries, and the header fields that describe them.

use crate::error::GenerateError;
use crate::models::{Elf, Section, SectionHeaderData, SectionType, SectionView};
use crate::models::section_views;
use vstd::pervasive::unreached;
use vstd::prelude::*;
use vstd::slice::slice_to_vec;

verus! {

/// A section as it is committed to the sink: the header fields and the bytes.
#[derive(Debug, Clone)]
pub struct SectionRecord {
    /// Offset of the section's name in the string table.
    pub name: u32,
    /// On-disk type code.
    pub sh_type: u32,
    pub flags: u64,
    pub addralign: u64,
    /// Number of bytes of the section in the file.
    pub size: u64,
    /// Size of one entry of a table section; these sections are no tables.
    pub entsize: u64,
    /// The bytes of the section.
    pub data: Vec<u8>,
}

/// Mathematical value of a [`SectionRecord`].
pub ghost struct SectionRecordView {
    pub name: u32,
    pub sh_type: u32,
    pub flags: u64,
    pub addralign: u64,
    pub size: u64,
    pub entsize: u64,
    pub data: Seq<u8>,
}

impl View for SectionRecord {
    type V = SectionRecordView;

    open spec fn view(&self) -> SectionRecordView {
        SectionRecordView {
            name: self.name,
            sh_type: self.sh_type,
            flags: self.flags,
            addralign: self.addralign,
            size: self.size,
            entsize: self.entsize,
            data: self.data@,
        }
    }
}

/// Whether sections of this kind have bytes to emit.
pub open spec fn kind_supported(kind: SectionType) -> bool {
    kind == SectionType::StrTab || kind == SectionType::License || kind == SectionType::Prog
}

/// Whether the section carries what its kind emits: a license or a program
/// section carries raw bytes. Other kinds ask nothing of the payload.
pub open spec fn payload_present(s: SectionView) -> bool {
    (s.kind == SectionType::License || s.kind == SectionType::Prog) ==> s.data is Data
}

/// The bytes that a section of a supported kind emits: the string table for
/// the string-table section, the section's own raw bytes otherwise.
pub open spec fn emitted_payload(s: SectionView, table: Seq<u8>) -> Seq<u8> {
    if s.kind == SectionType::StrTab {
        table
    } else {
        s.data->Data_0
    }
}

/// The record of a section: size and bytes from the emitted payload, no entry
/// size, and type, flags, alignment and name offset from the section's header.
pub open spec fn record_of(s: SectionView, table: Seq<u8>) -> SectionRecordView {
    SectionRecordView {
        name: s.header.name_idx,
        sh_type: s.header.sh_type,
        flags: s.header.flags,
        addralign: s.header.align,
        size: emitted_payload(s, table).len() as u64,
        entsize: 0,
        data: emitted_payload(s, table),
    }
}

/// Whether every section of the list is of a supported kind.
pub open spec fn all_supported(scns: Seq<SectionView>) -> bool {
    forall|i: int| 0 <= i < scns.len() ==> kind_supported(#[trigger] scns[i].kind)
}

/// What the check of a section list gives: the sections are gone through in
/// order, and the first one of an unsupported kind is refused.
pub open spec fn validation(scns: Seq<SectionView>) -> Result<(), GenerateError>
    decreases scns.len(),
{
    if scns.len() == 0 {
        Ok(())
    } else if validation(scns.drop_last()) is Err {
        validation(scns.drop_last())
    } else if kind_supported(scns.last().kind) {
        Ok(())
    } else {
        Err(GenerateError::UnsupportedSectionKind(scns.last().kind))
    }
}

/// The check passes exactly when every section is of a supported kind, and a
/// refusal names the kind of a section of the list.
pub proof fn lemma_validation(scns: Seq<SectionView>)
    ensures
        validation(scns) is Ok <==> all_supported(scns),
        validation(scns) is Err ==> exists|i: int|
            0 <= i < scns.len() && !kind_supported(#[trigger] scns[i].kind) && validation(scns)
                == Err::<(), GenerateError>(GenerateError::UnsupportedSectionKind(scns[i].kind))
                && all_supported(scns.take(i)),
    decreases scns.len(),
{
    if scns.len() > 0 {
        let front = scns.drop_last();
        lemma_validation(front);
        if validation(front) is Err {
            let i = choose|i: int|
                0 <= i < front.len() && !kind_supported(#[trigger] front[i].kind) && validation(
                    front,
                ) == Err::<(), GenerateError>(GenerateError::UnsupportedSectionKind(front[i].kind))
                    && all_supported(front.take(i));
            assert(scns[i] == front[i]);
            assert(scns.take(i) =~= front.take(i));
        } else {
            assert forall|i: int| 0 <= i < front.len() implies kind_supported(
                #[trigger] scns[i].kind,
            ) by {
                assert(scns[i] == front[i]);
            }
            if !kind_supported(scns.last().kind) {
                assert(scns.take(scns.len() - 1) =~= front);
            }
        }
    }
}

/// Whether every section of the list carries what its kind emits.
pub open spec fn payloads_present(scns: Seq<SectionView>) -> bool {
    forall|i: int| 0 <= i < scns.len() ==> payload_present(#[trigger] scns[i])
}

/// Lays out one section against the string table `table`.
///
/// A section of a kind without bytes to emit is refused. The record's size is
/// the number of bytes it carries.
pub fn section_record(scn: &Section, table: &[u8]) -> (r: Result<SectionRecord, GenerateError>)
    requires
        payload_present(scn@),
    ensures
        kind_supported(scn@.kind) ==> r is Ok && r->Ok_0@ == record_of(scn@, table@),
        !kind_supported(scn@.kind) ==> r == Err::<SectionRecord, GenerateError>(
            GenerateError::UnsupportedSectionKind(scn@.kind),
        ),
        r is Ok ==> r->Ok_0@.size == r->Ok_0@.data.len(),
{
    let data: Vec<u8> = match scn.kind {
        SectionType::StrTab => slice_to_vec(table),
        SectionType::License | SectionType::Prog => match &scn.data {
            SectionHeaderData::Data(bytes) => slice_to_vec(bytes.as_slice()),
            _ => unreached(),
        },
        _ => {
            return Err(GenerateError::UnsupportedSectionKind(scn.kind));
        },
    };
    let size: u64 = data.len() as u64;
    Ok(
        SectionRecord {
            name: scn.header.name_idx,
            sh_type: scn.header.sh_type,
            flags: scn.header.flags,
            addralign: scn.header.align,
            size,
            entsize: 0,
            data,
        },
    )
}

/// Checks the document before anything is written: every section must be of
/// a kind that has bytes to emit. The error names the kind of the first
/// section that is not.
pub fn validate(doc: &Elf) -> (r: Result<(), GenerateError>)
    ensures
        r == validation(doc@.scns),
{
    let mut i: usize = 0;
    while i < doc.scns.len()
        invariant
            i <= doc.scns@.len(),
            validation(doc@.scns.take(i as int)) is Ok,
        decreases doc.scns@.len() - i,
    {
        let kind: SectionType = doc.scns[i].kind;
        proof {
            assert(doc@.scns.take(i + 1).drop_last() =~= doc@.scns.take(i as int));
            assert(doc@.scns.take(i + 1).last().kind == kind);
        }
        match kind {
            SectionType::StrTab | SectionType::License | SectionType::Prog => {},
            _ => {
                proof {
                    lemma_validation_sticks(doc@.scns, i + 1);
                }
                return Err(GenerateError::UnsupportedSectionKind(kind));
            },
        }
        i = i + 1;
    }
    proof {
        assert(doc@.scns.take(i as int) =~= doc@.scns);
    }
    Ok(())
}

/// A refusal of the first sections is the refusal of the whole list.
pub proof fn lemma_validation_sticks(scns: Seq<SectionView>, i: int)
    requires
        0 <= i <= scns.len(),
        validation(scns.take(i)) is Err,
    ensures
        validation(scns) == validation(scns.take(i)),
    decreases scns.len() - i,
{
    if i == scns.len() {
        assert(scns.take(i) =~= scns);
    } else {
        assert(scns.take(i + 1).drop_last() =~= scns.take(i));
        lemma_validation_sticks(scns, i + 1);
    }
}

/// Whether every license and program section of the list carries raw bytes.
pub fn has_payloads(scns: &Vec<Section>) -> (present: bool)
    ensures
        present == payloads_present(section_views(scns@)),
{
    let mut i: usize = 0;
    while i < scns.len()
        invariant
            i <= scns@.len(),
            forall|j: int| 0 <= j < i ==> payload_present(#[trigger] section_views(scns@)[j]),
        decreases scns@.len() - i,
    {
        let needs_bytes: bool = match scns[i].kind {
            SectionType::License | SectionType::Prog => true,
            _ => false,
        };
        let has_bytes: bool = match &scns[i].data {
            SectionHeaderData::Data(_) => true,
            _ => false,
        };
        assert(section_views(scns@)[i as int] == scns@[i as int]@);
        if needs_bytes && !has_bytes {
            return false;
        }
        i = i + 1;
    }
    true
}

} // verus!
