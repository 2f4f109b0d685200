//! The section-name string table: one blob of NUL-terminated names, and the
//! offset of each section's name in it.

use crate::models::{Section, SectionHeaderView, SectionView};
use crate::models::section_views;
use vstd::prelude::*;
use vstd::utf8::encode_utf8;

verus! {

/// The table for a list of names: one NUL byte, then each name followed by a
/// NUL byte, in order.
pub open spec fn string_table(names: Seq<Seq<u8>>) -> Seq<u8>
    decreases names.len(),
{
    if names.len() == 0 {
        seq![0u8]
    } else {
        string_table(names.drop_last()) + names.last() + seq![0u8]
    }
}

/// Bytes that the names add to the table: each name's length and its NUL.
pub open spec fn names_size(names: Seq<Seq<u8>>) -> nat
    decreases names.len(),
{
    if names.len() == 0 {
        0
    } else {
        names_size(names.drop_last()) + names.last().len() + 1
    }
}

/// Offset of the `i`-th name in the table: the length of the table of the
/// names before it.
pub open spec fn name_offset(names: Seq<Seq<u8>>, i: int) -> int {
    string_table(names.take(i)).len() as int
}

/// The bytes of `table` from `at` up to the next NUL byte, or to the end.
pub open spec fn name_at(table: Seq<u8>, at: int) -> Seq<u8>
    decreases table.len() - at,
{
    if at < 0 || at >= table.len() || table[at] == 0 {
        Seq::empty()
    } else {
        seq![table[at]] + name_at(table, at + 1)
    }
}

/// The names of a section list as they are written to the table: UTF-8 bytes.
pub open spec fn section_names(scns: Seq<SectionView>) -> Seq<Seq<u8>> {
    scns.map_values(|s: SectionView| encode_utf8(s.header.name))
}

/// A section with its name offset replaced.
pub open spec fn with_offset(s: SectionView, offset: u32) -> SectionView {
    SectionView {
        header: SectionHeaderView { name_idx: offset, ..s.header },
        ..s
    }
}

/// The section list after the table pass: every section records the offset
/// of its own name, and nothing else has changed.
pub open spec fn with_name_offsets(scns: Seq<SectionView>) -> Seq<SectionView> {
    Seq::new(
        scns.len(),
        |i: int| with_offset(scns[i], name_offset(section_names(scns), i) as u32),
    )
}

/// A table of fewer names is no longer than the table of all of them.
pub proof fn lemma_table_prefix_len(names: Seq<Seq<u8>>, i: int)
    requires
        0 <= i <= names.len(),
    ensures
        string_table(names.take(i)).len() <= string_table(names).len(),
        i < names.len() ==> string_table(names.take(i)).len() + names[i].len() + 1
            <= string_table(names).len(),
    decreases names.len() - i,
{
    if i == names.len() {
        assert(names.take(i) =~= names);
    } else {
        lemma_table_prefix_len(names, i + 1);
        assert(names.take(i + 1).drop_last() =~= names.take(i));
        assert(names.take(i + 1).last() == names[i]);
    }
}

/// The table of the first names is the start of the table of all of them.
pub proof fn lemma_table_prefix(names: Seq<Seq<u8>>, i: int)
    requires
        0 <= i <= names.len(),
    ensures
        string_table(names.take(i)).is_prefix_of(string_table(names)),
    decreases names.len() - i,
{
    if i == names.len() {
        assert(names.take(i) =~= names);
    } else {
        lemma_table_prefix(names, i + 1);
        assert(names.take(i + 1).drop_last() =~= names.take(i));
    }
}

/// Scanning from `at` stops at the first NUL: if `name` stands at `at`, holds
/// no NUL and is followed by one, the scan gives `name`.
pub proof fn lemma_name_at(table: Seq<u8>, at: int, name: Seq<u8>)
    requires
        0 <= at,
        at + name.len() < table.len(),
        table.subrange(at, at + name.len()) == name,
        !name.contains(0u8),
        table[at + name.len()] == 0,
    ensures
        name_at(table, at) == name,
    decreases name.len(),
{
    if name.len() == 0 {
        assert(name_at(table, at) =~= name);
    } else {
        assert(table[at] == name[0]);
        assert(name.contains(name[0]));
        let rest = name.drop_first();
        assert forall|b: u8| rest.contains(b) implies name.contains(b) by {
            let k = choose|k: int| 0 <= k < rest.len() && rest[k] == b;
            assert(name[k + 1] == b);
        }
        assert(table.subrange(at + 1, at + 1 + rest.len()) =~= rest);
        lemma_name_at(table, at + 1, rest);
        assert(seq![table[at]] + rest =~= name);
    }
}

/// The table starts with a NUL byte, and its length is one more than the sum
/// over the names of each name's length plus one.
pub proof fn law_table_shape(names: Seq<Seq<u8>>)
    ensures
        string_table(names).len() == 1 + names_size(names),
        string_table(names)[0] == 0,
    decreases names.len(),
{
    if names.len() > 0 {
        law_table_shape(names.drop_last());
    }
}

/// An empty name adds its NUL terminator to the table and nothing else.
pub proof fn law_empty_name_adds_its_terminator(names: Seq<Seq<u8>>)
    ensures
        string_table(names.push(Seq::empty())) == string_table(names).push(0u8),
{
    let grown = names.push(Seq::empty());
    assert(grown.drop_last() =~= names);
    assert(string_table(grown) =~= string_table(names).push(0u8));
}

/// The `i`-th name stands in the table at its offset, followed by a NUL byte;
/// where the name holds no NUL byte, scanning from the offset to the next NUL
/// gives exactly the name.
pub proof fn lemma_offset_reads_name(names: Seq<Seq<u8>>, i: int)
    requires
        0 <= i < names.len(),
    ensures
        0 < name_offset(names, i),
        name_offset(names, i) + names[i].len() < string_table(names).len(),
        string_table(names).subrange(
            name_offset(names, i),
            name_offset(names, i) + names[i].len(),
        ) == names[i],
        string_table(names)[name_offset(names, i) + names[i].len()] == 0,
        !names[i].contains(0u8) ==> name_at(string_table(names), name_offset(names, i))
            == names[i],
{
    let table = string_table(names);
    let at = name_offset(names, i);
    let upto = string_table(names.take(i + 1));
    law_table_shape(names.take(i));
    lemma_table_prefix(names, i + 1);
    assert(names.take(i + 1).drop_last() =~= names.take(i));
    assert(names.take(i + 1).last() == names[i]);
    assert(upto =~= string_table(names.take(i)) + names[i] + seq![0u8]);
    assert(table.subrange(at, at + names[i].len()) =~= names[i]) by {
        assert forall|k: int| 0 <= k < names[i].len() implies table[at + k] == names[i][k] by {
            assert(table[at + k] == upto[at + k]);
        }
    }
    assert(table[at + names[i].len()] == upto[at + names[i].len()]);
    if !names[i].contains(0u8) {
        lemma_name_at(table, at, names[i]);
    }
}

/// Every name gets an offset of its own: a later name starts after the
/// earlier one has ended, also where the two names are equal.
pub proof fn law_offsets_differ(names: Seq<Seq<u8>>, i: int, j: int)
    requires
        0 <= i < j < names.len(),
    ensures
        name_offset(names, i) + names[i].len() < name_offset(names, j),
{
    let first = names.take(j);
    lemma_table_prefix_len(first, i);
    assert(first.take(i) =~= names.take(i));
    assert(first[i] == names[i]);
}

/// After the table pass, reading the table at the offset that a section
/// records, up to the next NUL byte, gives that section's name.
/// It holds of every section whose name holds no NUL byte, in a list whose
/// table fits the 32-bit offset field.
pub proof fn law_offset_correct(scns: Seq<SectionView>, i: int)
    requires
        string_table(section_names(scns)).len() <= u32::MAX,
        0 <= i < scns.len(),
        !section_names(scns)[i].contains(0u8),
    ensures
        name_at(
            string_table(section_names(scns)),
            with_name_offsets(scns)[i].header.name_idx as int,
        ) == section_names(scns)[i],
{
    lemma_offset_reads_name(section_names(scns), i);
}

/// The table pass leaves the names as they are, so a second pass over its own
/// result builds the same table and assigns the same offsets.
pub proof fn law_table_pass_idempotent(scns: Seq<SectionView>)
    ensures
        section_names(with_name_offsets(scns)) == section_names(scns),
        string_table(section_names(with_name_offsets(scns))) == string_table(
            section_names(scns),
        ),
        with_name_offsets(with_name_offsets(scns)) == with_name_offsets(scns),
{
    assert(section_names(with_name_offsets(scns)) =~= section_names(scns));
    assert(with_name_offsets(with_name_offsets(scns)) =~= with_name_offsets(scns));
}

/// Whether the table of a section list fits the 32-bit offset field.
pub open spec fn names_fit(scns: Seq<SectionView>) -> bool {
    string_table(section_names(scns)).len() <= u32::MAX
}

/// Builds the string table of a section list and records in each section the
/// offset of its name.
pub fn build_string_table(scns: &mut Vec<Section>) -> (table: Vec<u8>)
    requires
        names_fit(section_views(old(scns)@)),
    ensures
        table@ == string_table(section_names(section_views(old(scns)@))),
        section_views(final(scns)@) == with_name_offsets(section_views(old(scns)@)),
{
    let ghost before = section_views(scns@);
    let ghost names = section_names(before);
    let mut table: Vec<u8> = Vec::new();
    table.push(0u8);
    let n: usize = scns.len();
    let mut i: usize = 0;
    proof {
        assert(names.take(0) =~= Seq::<Seq<u8>>::empty());
    }
    while i < n
        invariant
            i <= n,
            n == scns@.len(),
            before.len() == n,
            names == section_names(before),
            string_table(names).len() <= u32::MAX,
            table@ == string_table(names.take(i as int)),
            forall|j: int|
                0 <= j < i ==> (#[trigger] scns@[j])@ == with_offset(
                    before[j],
                    name_offset(names, j) as u32,
                ),
            forall|j: int| i <= j < n ==> (#[trigger] scns@[j])@ == before[j],
        decreases n - i,
    {
        proof {
            lemma_table_prefix_len(names, i as int);
        }
        let offset: u32 = table.len() as u32;
        scns[i].header.name_idx = offset;
        let bytes = scns[i].header.name.as_str().as_bytes();
        let ghost grown = table@ + bytes@;
        table.extend_from_slice(bytes);
        assert(table@ =~= grown);
        table.push(0u8);
        proof {
            assert(names[i as int] == bytes@);
            assert(names.take(i + 1).drop_last() =~= names.take(i as int));
            assert(names.take(i + 1).last() == names[i as int]);
        }
        i = i + 1;
    }
    proof {
        assert(names.take(n as int) =~= names);
        assert(section_views(scns@) =~= with_name_offsets(before));
    }
    table
}

/// Reads the name that stands in `table` at `at`: the bytes up to the next NUL
/// byte, or to the end of the table.
pub fn read_name(table: &[u8], at: usize) -> (name: Vec<u8>)
    ensures
        name@ == name_at(table@, at as int),
{
    let mut name: Vec<u8> = Vec::new();
    let mut i: usize = at;
    while i < table.len() && table[i] != 0
        invariant
            at <= i,
            name@ + name_at(table@, i as int) == name_at(table@, at as int),
        decreases table.len() - i,
    {
        let ghost before = name@;
        name.push(table[i]);
        proof {
            assert(name@ + name_at(table@, i + 1) =~= before + name_at(table@, i as int));
        }
        i = i + 1;
    }
    proof {
        assert(name_at(table@, i as int) =~= Seq::<u8>::empty());
        assert(name@ + Seq::<u8>::empty() =~= name@);
    }
    name
}

/// Whether the table of a section list fits the 32-bit offset field, so that
/// [`build_string_table`] can record every offset.
pub fn table_fits(scns: &Vec<Section>) -> (fits: bool)
    ensures
        fits == names_fit(section_views(scns@)),
{
    let ghost names = section_names(section_views(scns@));
    let mut len: u64 = 1;
    let mut i: usize = 0;
    proof {
        assert(names.take(0) =~= Seq::<Seq<u8>>::empty());
    }
    while i < scns.len()
        invariant
            i <= scns@.len(),
            names == section_names(section_views(scns@)),
            len == string_table(names.take(i as int)).len(),
            len <= u32::MAX,
        decreases scns@.len() - i,
    {
        let name_len: usize = scns[i].header.name.as_str().as_bytes().len();
        proof {
            assert(names.take(i + 1).drop_last() =~= names.take(i as int));
            assert(names.take(i + 1).last() == names[i as int]);
            lemma_table_prefix_len(names, i + 1);
        }
        if name_len as u64 >= 0xffff_ffffu64 - len {
            return false;
        }
        len = len + name_len as u64 + 1;
        i = i + 1;
    }
    proof {
        assert(names.take(i as int) =~= names);
    }
    true
}

} // verus!
