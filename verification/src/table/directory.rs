//! The table directory at the start of a font file: where each table lies.
use crate::parse::{be16, be32, Stream};
use crate::FontResult;
use vstd::prelude::*;

verus! {

#[derive(Debug, PartialEq, Hash)]
pub struct TableOffset {
    pub checksum: u32,
    pub offset: usize,
    pub length: u32,
}

/// A hashbrown map from table tags, read as big-endian `u32`, to where the tables lie.
#[verifier::external_body]
#[derive(Debug)]
pub struct TableMap {
    map: hashbrown::HashMap<u32, TableOffset>,
}

/// The pairs a `TableMap` holds.
pub uninterp spec fn table_map_contents(m: TableMap) -> Map<u32, TableOffset>;

/// The map without any pair.
pub open spec fn no_tables() -> Map<u32, TableOffset> {
    Map::empty()
}

/// `hashbrown::HashMap::new`: the map holds no pair.
#[verifier::external_body]
fn table_map_new() -> (map: TableMap)
    ensures
        table_map_contents(map) == no_tables(),
{
    TableMap { map: hashbrown::HashMap::new() }
}

/// `hashbrown::HashMap::insert`: the key now maps to the value, replacing any earlier value; the
/// other pairs stay.
#[verifier::external_body]
fn table_map_insert(m: &mut TableMap, k: u32, v: TableOffset)
    ensures
        table_map_contents(*final(m)) == table_map_contents(*old(m)).insert(k, v),
{
    m.map.insert(k, v);
}

/// `hashbrown::HashMap::get`: where the table with the tag lies, if the map holds it; the record
/// is copied out field by field.
#[verifier::external_body]
fn table_map_get(m: &TableMap, k: u32) -> (r: Option<TableOffset>)
    ensures
        r == (if table_map_contents(*m).contains_key(k) {
            Some(table_map_contents(*m)[k])
        } else {
            None::<TableOffset>
        }),
{
    match m.map.get(&k) {
        Some(t) => Some(TableOffset { checksum: t.checksum, offset: t.offset, length: t.length }),
        None => None,
    }
}

impl TableMap {
    pub open spec fn view(&self) -> Map<u32, TableOffset> {
        table_map_contents(*self)
    }

    /// Where the table with the tag lies, if the directory lists it.
    pub fn get(&self, tag: u32) -> (r: Option<TableOffset>)
        ensures
            r == (if self.view().contains_key(tag) { Some(self.view()[tag]) } else { None::<TableOffset> }),
    {
        table_map_get(self, tag)
    }
}

#[derive(Debug)]
pub struct TableDirectory {
    pub map: TableMap,
}

/// The versions of single font files: 'true', 'typ1', 'OTTO' and 0x00010000.
pub open spec fn font_version(tag: u32) -> bool {
    tag == 0x7472_7565 || tag == 0x7479_7031 || tag == 0x4F54_544F || tag == 0x0001_0000
}

/// The table record number `k`: its tag and where its table lies.
pub open spec fn table_record(b: Seq<u8>, k: int) -> (u32, TableOffset) {
    let at = 12 + 16 * k;
    (be32(b, at) as u32, TableOffset {
        checksum: be32(b, at + 4) as u32,
        offset: be32(b, at + 8) as usize,
        length: be32(b, at + 12) as u32,
    })
}

/// The first `n` records, inserted in order, so that a later record of a tag wins.
pub open spec fn directory_map(b: Seq<u8>, n: nat) -> Map<u32, TableOffset>
    decreases n,
{
    if n == 0 {
        Map::empty()
    } else {
        directory_map(b, (n - 1) as nat).insert(table_record(b, n - 1).0, table_record(b, n - 1).1)
    }
}

/// The directory can be read without reading past the data.
pub open spec fn directory_readable(b: Seq<u8>) -> bool {
    b.len() >= 4 && font_version(be32(b, 0) as u32) ==> {
        &&& b.len() >= 6
        &&& be16(b, 4) > 0 ==> 12 + 16 * be16(b, 4) <= b.len()
    }
}

impl TableDirectory {
    /// Reads the table records of a single font file.
    pub fn new(data: &[u8]) -> (r: FontResult<TableDirectory>)
        requires
            directory_readable(data@),
        ensures
            data@.len() < 4 ==> r == Err::<TableDirectory, &'static str>("Font: File isn't large enough to be a font."),
            data@.len() >= 4 && !font_version(be32(data@, 0) as u32) ==> r == Err::<TableDirectory, &'static str>(
                "Font: Unsupported font type.",
            ),
            data@.len() >= 4 && font_version(be32(data@, 0) as u32) ==> (r matches Ok(d) && d.map.view()
                == directory_map(data@, be16(data@, 4) as nat)),
    {
        if data.len() < 4 {
            return Err("Font: File isn't large enough to be a font.");
        }
        let ghost b = data@;
        let mut stream = Stream::new(data);
        let version = stream.read_u32();
        if !Self::is_font(version) {
            return Err("Font: Unsupported font type.");
        }
        let table_count = stream.read_u16();
        stream.skip(6);
        let mut map = table_map_new();
        let mut k: u16 = 0;
        while k < table_count
            invariant
                stream.bytes@ == b,
                b == data@,
                b.len() >= 6,
                table_count == be16(b, 4),
                table_count > 0 ==> 12 + 16 * table_count <= b.len(),
                k <= table_count,
                stream.offset == 12 + 16 * k,
                map.view() == directory_map(b, k as nat),
            decreases table_count - k,
        {
            let identifier = stream.read_u32();
            let checksum = stream.read_u32();
            let offset = stream.read_u32() as usize;
            let length = stream.read_u32();
            table_map_insert(&mut map, identifier, TableOffset { checksum, offset, length });
            k += 1;
        }
        Ok(TableDirectory { map })
    }

    fn is_font(tag: u32) -> (r: bool)
        ensures
            r == font_version(tag),
    {
        tag == 0x7472_7565 || tag == 0x7479_7031 || tag == 0x4F54_544F || tag == 0x0001_0000
    }

    /// The version of a font collection: 'ttcf'.
    fn is_collection(tag: u32) -> (r: bool)
        ensures
            r == (tag == 0x7474_6366),
    {
        tag == 0x7474_6366
    }
}

} // verus!
