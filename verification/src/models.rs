//! The document model: what the object file is meant to hold, before any
//! byte of it is laid out.

use vstd::prelude::*;

verus! {

/// Object category of a relocatable file (`ET_REL`).
pub const ET_REL: u16 = 1;

/// Machine identifier of the eBPF virtual machine (`EM_BPF`).
pub const EM_BPF: u16 = 247;

/// On-disk type code of a section that holds program-defined bytes (`SHT_PROGBITS`).
pub const SHT_PROGBITS: u32 = 1;

/// On-disk type code of a string table (`SHT_STRTAB`).
pub const SHT_STRTAB: u32 = 3;

/// Flag bit: the section is writable at run time (`SHF_WRITE`).
pub const SHF_WRITE: u64 = 1;

/// Flag bit: the section occupies memory at run time (`SHF_ALLOC`).
pub const SHF_ALLOC: u64 = 2;

/// Flag bit: the section holds machine instructions (`SHF_EXECINSTR`).
pub const SHF_EXECINSTR: u64 = 4;

/// What a section is for. The kind selects the rule by which the section's
/// bytes on disk are chosen.
#[derive(Debug, Copy, Clone, PartialEq, Eq, Structural)]
#[non_exhaustive]
pub enum SectionType {
    Null,
    StrTab,
    Prog,
    License,
    SymTab,
}

/// The fields of the file header that the document chooses.
#[derive(Debug, Copy, Clone, PartialEq, Eq, Structural)]
#[non_exhaustive]
pub struct ElfHeader {
    /// Object category.
    pub kind: u16,
    /// Target instruction set.
    pub machine: u16,
    /// Index, in the file, of the section that holds the section names.
    pub shstridx: u16,
}

/// Placeholder for a program header; documents carry none.
#[derive(Debug, Copy, Clone, PartialEq, Eq, Structural)]
#[non_exhaustive]
pub struct ProgHeader {}

/// A symbol of a symbol table.
#[derive(Debug, Clone)]
#[non_exhaustive]
pub struct Symbol {
    pub name: String,
    pub name_idx: u32,
    /// Index of the section the symbol belongs to.
    pub shndx: u16,
}

/// The header of a section as the document states it.
#[derive(Debug, Clone)]
#[non_exhaustive]
pub struct SectionHeader {
    pub name: String,
    /// Offset of the name in the string table; assigned when the table is built.
    pub name_idx: u32,
    /// On-disk type code.
    pub sh_type: u32,
    pub flags: u64,
    pub align: u64,
}

/// What a section carries.
#[derive(Debug, Clone)]
#[non_exhaustive]
pub enum SectionHeaderData {
    Unset,
    Data(Vec<u8>),
    SymTab(Vec<Symbol>),
}

/// One section of the document.
#[derive(Debug, Clone)]
#[non_exhaustive]
pub struct Section {
    pub kind: SectionType,
    pub header: SectionHeader,
    pub data: SectionHeaderData,
}

/// The whole document: header, optional program header, sections in file order.
/// The reserved null section at index 0 of the file is not listed.
#[derive(Debug, Clone)]
#[non_exhaustive]
pub struct Elf {
    pub ehdr: ElfHeader,
    pub phdr: Option<ProgHeader>,
    pub scns: Vec<Section>,
}

/// Mathematical value of a [`Symbol`].
pub ghost struct SymbolView {
    pub name: Seq<char>,
    pub name_idx: u32,
    pub shndx: u16,
}

/// Mathematical value of a [`SectionHeader`].
pub ghost struct SectionHeaderView {
    pub name: Seq<char>,
    pub name_idx: u32,
    pub sh_type: u32,
    pub flags: u64,
    pub align: u64,
}

/// Mathematical value of a [`SectionHeaderData`].
pub ghost enum PayloadView {
    Unset,
    Data(Seq<u8>),
    SymTab(Seq<SymbolView>),
}

/// Mathematical value of a [`Section`].
pub ghost struct SectionView {
    pub kind: SectionType,
    pub header: SectionHeaderView,
    pub data: PayloadView,
}

/// Mathematical value of an [`Elf`].
pub ghost struct ElfView {
    pub ehdr: ElfHeader,
    pub phdr: Option<ProgHeader>,
    pub scns: Seq<SectionView>,
}

impl View for Symbol {
    type V = SymbolView;

    open spec fn view(&self) -> SymbolView {
        SymbolView { name: self.name@, name_idx: self.name_idx, shndx: self.shndx }
    }
}

impl View for SectionHeader {
    type V = SectionHeaderView;

    open spec fn view(&self) -> SectionHeaderView {
        SectionHeaderView {
            name: self.name@,
            name_idx: self.name_idx,
            sh_type: self.sh_type,
            flags: self.flags,
            align: self.align,
        }
    }
}

impl View for SectionHeaderData {
    type V = PayloadView;

    open spec fn view(&self) -> PayloadView {
        match *self {
            SectionHeaderData::Unset => PayloadView::Unset,
            SectionHeaderData::Data(bytes) => PayloadView::Data(bytes@),
            SectionHeaderData::SymTab(symbols) => PayloadView::SymTab(
                symbols@.map_values(|s: Symbol| s@),
            ),
        }
    }
}

impl View for Section {
    type V = SectionView;

    open spec fn view(&self) -> SectionView {
        SectionView { kind: self.kind, header: self.header@, data: self.data@ }
    }
}

impl View for Elf {
    type V = ElfView;

    open spec fn view(&self) -> ElfView {
        ElfView { ehdr: self.ehdr, phdr: self.phdr, scns: section_views(self.scns@) }
    }
}

/// The sections of a list, each by its mathematical value.
pub open spec fn section_views(scns: Seq<Section>) -> Seq<SectionView> {
    scns.map_values(|s: Section| s@)
}

/// Position in the file of the `i`-th section of a document: the reserved
/// null section comes first.
pub open spec fn disk_index(i: int) -> int {
    i + 1
}

/// The header's invariant: the document holds exactly one string table, and
/// the header's index names the position of that section in the file.
pub open spec fn index_consistent(doc: ElfView) -> bool {
    let at = doc.ehdr.shstridx - 1;
    &&& 0 <= at < doc.scns.len()
    &&& forall|i: int|
        0 <= i < doc.scns.len() ==> ((#[trigger] doc.scns[i]).kind == SectionType::StrTab <==> i
            == at)
}

impl ElfHeader {
    pub fn new(kind: u16, machine: u16, shstridx: u16) -> (ehdr: ElfHeader)
        ensures
            ehdr == (ElfHeader { kind, machine, shstridx }),
    {
        ElfHeader { kind, machine, shstridx }
    }
}

impl ProgHeader {
    pub fn new() -> (phdr: ProgHeader)
        ensures
            phdr == (ProgHeader {  }),
    {
        ProgHeader {  }
    }
}

impl Symbol {
    pub fn new(name: String, name_idx: u32, shndx: u16) -> (symbol: Symbol)
        ensures
            symbol@ == (SymbolView { name: name@, name_idx, shndx }),
    {
        Symbol { name, name_idx, shndx }
    }
}

impl SectionHeader {
    pub fn new(name: String, name_idx: u32, sh_type: u32, flags: u64, align: u64) -> (header:
        SectionHeader)
        ensures
            header@ == (SectionHeaderView { name: name@, name_idx, sh_type, flags, align }),
    {
        SectionHeader { name, name_idx, sh_type, flags, align }
    }
}

impl Section {
    pub fn new(kind: SectionType, header: SectionHeader, data: SectionHeaderData) -> (scn:
        Section)
        ensures
            scn@ == (SectionView { kind, header: header@, data: data@ }),
    {
        Section { kind, header, data }
    }
}

impl Elf {
    pub fn new(ehdr: ElfHeader, phdr: Option<ProgHeader>, scns: Vec<Section>) -> (doc: Elf)
        ensures
            doc@ == (ElfView { ehdr, phdr, scns: section_views(scns@) }),
    {
        Elf { ehdr, phdr, scns }
    }

    /// Whether the header's string-table index names the one string table of
    /// the document.
    pub fn has_consistent_index(&self) -> (consistent: bool)
        ensures
            consistent == index_consistent(self@),
    {
        if self.ehdr.shstridx == 0 || self.ehdr.shstridx as usize > self.scns.len() {
            return false;
        }
        let at: usize = (self.ehdr.shstridx - 1) as usize;
        let mut i: usize = 0;
        while i < self.scns.len()
            invariant
                i <= self.scns@.len(),
                at == self.ehdr.shstridx - 1,
                at < self.scns@.len(),
                forall|j: int|
                    0 <= j < i ==> ((#[trigger] self@.scns[j]).kind == SectionType::StrTab <==> j
                        == at),
            decreases self.scns@.len() - i,
        {
            let is_table: bool = match self.scns[i].kind {
                SectionType::StrTab => true,
                _ => false,
            };
            if is_table != (i == at) {
                assert(self@.scns[i as int].kind == self.scns@[i as int].kind);
                return false;
            }
            i = i + 1;
        }
        true
    }
}

} // verus!
