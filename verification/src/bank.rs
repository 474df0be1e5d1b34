//! The top level of a bank: its chunks, and the decoder of a whole bank.

use crate::cursor::{be_u32, fits, le_u32, Cursor};
use crate::decode::{models, parse_many, Record};
use crate::error::ParseError;
use crate::hierarchy::music::{
    path_element_of, AudioPathElement, AudioPathElementModel, MusicSwitchContainerModel,
};
use crate::hierarchy::{
    HierarchyChunk, HierarchyChunkModel, HierarchyObject, HierarchyObjectModel, HierarchyObjectType,
    HierarchyObjectTypeModel,
};
use vstd::prelude::*;

verus! {

/// The format version that this decoder reads.
pub const BANK_VERSION: u32 = 0x8C;

/// The name of a chunk: four characters, compared as one big-endian word.
#[derive(Debug, Clone, Copy, PartialEq, Eq, Hash, Structural)]
pub enum ChunkName {
    BKHD,
    HIRC,
    INIT,
    STMG,
    STID,
    PLAT,
    DIDX,
    DATA,
    ENVS,
    /// A name that this decoder does not know, kept as its word.
    Other(u32),
}

impl ChunkName {
    /// The name that a big-endian word spells.
    pub open spec fn of_word(w: u32) -> ChunkName {
        if w == 0x424B4844 {
            ChunkName::BKHD
        } else if w == 0x48495243 {
            ChunkName::HIRC
        } else if w == 0x494E4954 {
            ChunkName::INIT
        } else if w == 0x53544D47 {
            ChunkName::STMG
        } else if w == 0x53544944 {
            ChunkName::STID
        } else if w == 0x504C4154 {
            ChunkName::PLAT
        } else if w == 0x44494458 {
            ChunkName::DIDX
        } else if w == 0x44415441 {
            ChunkName::DATA
        } else if w == 0x454E5653 {
            ChunkName::ENVS
        } else {
            ChunkName::Other(w)
        }
    }

    /// Names a chunk by the word that its four characters make.
    pub fn from_word(w: u32) -> (r: ChunkName)
        ensures
            r == Self::of_word(w),
    {
        if w == 0x424B4844 {
            ChunkName::BKHD
        } else if w == 0x48495243 {
            ChunkName::HIRC
        } else if w == 0x494E4954 {
            ChunkName::INIT
        } else if w == 0x53544D47 {
            ChunkName::STMG
        } else if w == 0x53544944 {
            ChunkName::STID
        } else if w == 0x504C4154 {
            ChunkName::PLAT
        } else if w == 0x44494458 {
            ChunkName::DIDX
        } else if w == 0x44415441 {
            ChunkName::DATA
        } else if w == 0x454E5653 {
            ChunkName::ENVS
        } else {
            ChunkName::Other(w)
        }
    }
}

/// What opens every chunk: its name and the length of its body.
#[derive(Debug, Clone, Copy, PartialEq, Eq, Structural)]
pub struct SoundbankChunkHeader {
    pub name: ChunkName,
    pub len: u32,
}

impl Record for SoundbankChunkHeader {
    type Model = SoundbankChunkHeader;

    open spec fn model(&self) -> SoundbankChunkHeader {
        *self
    }

    /// The name as a big-endian word, then the length, little-endian.
    open spec fn parse(s: Seq<u8>, at: int) -> Option<(SoundbankChunkHeader, int)> {
        if fits(s, at, 8) {
            Some(
                (
                    SoundbankChunkHeader {
                        name: ChunkName::of_word(be_u32(s, at) as u32),
                        len: le_u32(s, at + 4) as u32,
                    },
                    at + 8,
                ),
            )
        } else {
            None
        }
    }

    fn read(cur: &mut Cursor) -> (r: Option<SoundbankChunkHeader>) {
        let word: u32 = cur.read_u32_be()?;
        let len: u32 = cur.read_u32_le()?;
        Some(SoundbankChunkHeader { name: ChunkName::from_word(word), len })
    }

    fn replicate(&self) -> (r: SoundbankChunkHeader) {
        *self
    }
}

/// The body of the bank header chunk.
#[derive(Debug, Clone, Copy, PartialEq, Eq, Structural)]
pub struct BankHeaderChunk {
    pub ver: u32,
    pub id: u32,
    pub language_id: u32,
    pub project_id: u32,
}

impl Record for BankHeaderChunk {
    type Model = BankHeaderChunk;

    open spec fn model(&self) -> BankHeaderChunk {
        *self
    }

    /// The format version, which must be the supported one; the bank's id;
    /// the language; eight bytes that are passed over; the project's id.
    open spec fn parse(s: Seq<u8>, at: int) -> Option<(BankHeaderChunk, int)> {
        if fits(s, at, 24) && le_u32(s, at) == 0x8C {
            Some(
                (
                    BankHeaderChunk {
                        ver: le_u32(s, at) as u32,
                        id: le_u32(s, at + 4) as u32,
                        language_id: le_u32(s, at + 8) as u32,
                        project_id: le_u32(s, at + 20) as u32,
                    },
                    at + 24,
                ),
            )
        } else {
            None
        }
    }

    fn read(cur: &mut Cursor) -> (r: Option<BankHeaderChunk>) {
        let ver: u32 = cur.read_u32_le()?;
        if ver != BANK_VERSION {
            return None;
        }
        let id: u32 = cur.read_u32_le()?;
        let language_id: u32 = cur.read_u32_le()?;
        cur.skip(8)?;
        let project_id: u32 = cur.read_u32_le()?;
        Some(BankHeaderChunk { ver, id, language_id, project_id })
    }

    fn replicate(&self) -> (r: BankHeaderChunk) {
        *self
    }
}

/// The body of a chunk. Only the bank header and the hierarchy are decoded;
/// the other chunks, known by name or not, are placeholders.
#[derive(Debug, PartialEq, Eq)]
pub enum SoundbankChunkTypes {
    BankHeader(BankHeaderChunk),
    Hierarchy(HierarchyChunk),
    Init,
    GlobalSettings,
    SoundbankIdToString,
    Platform,
    MediaIndex,
    Data,
    EnvironmentSettings,
    /// The body of a chunk whose name this decoder does not know.
    Unknown,
}

/// The mathematical value of a [`SoundbankChunkTypes`].
pub enum SoundbankChunkTypesModel {
    BankHeader(BankHeaderChunk),
    Hierarchy(HierarchyChunkModel),
    Init,
    GlobalSettings,
    SoundbankIdToString,
    Platform,
    MediaIndex,
    Data,
    EnvironmentSettings,
    Unknown,
}

impl SoundbankChunkTypes {
    pub open spec fn model(&self) -> SoundbankChunkTypesModel {
        match self {
            SoundbankChunkTypes::BankHeader(v) => SoundbankChunkTypesModel::BankHeader(*v),
            SoundbankChunkTypes::Hierarchy(v) => SoundbankChunkTypesModel::Hierarchy(v.model()),
            SoundbankChunkTypes::Init => SoundbankChunkTypesModel::Init,
            SoundbankChunkTypes::GlobalSettings => SoundbankChunkTypesModel::GlobalSettings,
            SoundbankChunkTypes::SoundbankIdToString => SoundbankChunkTypesModel::SoundbankIdToString,
            SoundbankChunkTypes::Platform => SoundbankChunkTypesModel::Platform,
            SoundbankChunkTypes::MediaIndex => SoundbankChunkTypesModel::MediaIndex,
            SoundbankChunkTypes::Data => SoundbankChunkTypesModel::Data,
            SoundbankChunkTypes::EnvironmentSettings => SoundbankChunkTypesModel::EnvironmentSettings,
            SoundbankChunkTypes::Unknown => SoundbankChunkTypesModel::Unknown,
        }
    }

    /// Decodes the body of a chunk whose name is `ty`. Only the bank header
    /// and the hierarchy read anything.
    pub fn read(cur: &mut Cursor, ty: ChunkName) -> (r: Option<SoundbankChunkTypes>)
        ensures
            final(cur).bytes() == old(cur).bytes(),
            match r {
                Some(v) => parse_chunk_body(old(cur).bytes(), old(cur).offset(), ty) == Some(
                    (v.model(), final(cur).offset()),
                ),
                None => parse_chunk_body(old(cur).bytes(), old(cur).offset(), ty) is None,
            },
    {
        match ty {
            ChunkName::BKHD => {
                let v = BankHeaderChunk::read(cur)?;
                Some(SoundbankChunkTypes::BankHeader(v))
            },
            ChunkName::HIRC => {
                let v = HierarchyChunk::read(cur)?;
                Some(SoundbankChunkTypes::Hierarchy(v))
            },
            ChunkName::INIT => Some(SoundbankChunkTypes::Init),
            ChunkName::STMG => Some(SoundbankChunkTypes::GlobalSettings),
            ChunkName::STID => Some(SoundbankChunkTypes::SoundbankIdToString),
            ChunkName::PLAT => Some(SoundbankChunkTypes::Platform),
            ChunkName::DIDX => Some(SoundbankChunkTypes::MediaIndex),
            ChunkName::DATA => Some(SoundbankChunkTypes::Data),
            ChunkName::ENVS => Some(SoundbankChunkTypes::EnvironmentSettings),
            ChunkName::Other(_) => Some(SoundbankChunkTypes::Unknown),
        }
    }
}

impl Clone for SoundbankChunkTypes {
    fn clone(&self) -> (r: Self)
        ensures
            r.model() == self.model(),
    {
        match self {
            SoundbankChunkTypes::BankHeader(v) => SoundbankChunkTypes::BankHeader(*v),
            SoundbankChunkTypes::Hierarchy(v) => SoundbankChunkTypes::Hierarchy(v.replicate()),
            SoundbankChunkTypes::Init => SoundbankChunkTypes::Init,
            SoundbankChunkTypes::GlobalSettings => SoundbankChunkTypes::GlobalSettings,
            SoundbankChunkTypes::SoundbankIdToString => SoundbankChunkTypes::SoundbankIdToString,
            SoundbankChunkTypes::Platform => SoundbankChunkTypes::Platform,
            SoundbankChunkTypes::MediaIndex => SoundbankChunkTypes::MediaIndex,
            SoundbankChunkTypes::Data => SoundbankChunkTypes::Data,
            SoundbankChunkTypes::EnvironmentSettings => SoundbankChunkTypes::EnvironmentSettings,
            SoundbankChunkTypes::Unknown => SoundbankChunkTypes::Unknown,
        }
    }
}

/// The body that the bytes at `at` spell for a chunk named `ty`. A chunk
/// that is not decoded takes no bytes and never fails.
pub open spec fn parse_chunk_body(s: Seq<u8>, at: int, ty: ChunkName) -> Option<
    (SoundbankChunkTypesModel, int),
> {
    match ty {
        ChunkName::BKHD => match BankHeaderChunk::parse(s, at) {
            None => None,
            Some((v, end)) => Some((SoundbankChunkTypesModel::BankHeader(v), end)),
        },
        ChunkName::HIRC => match HierarchyChunk::parse(s, at) {
            None => None,
            Some((v, end)) => Some((SoundbankChunkTypesModel::Hierarchy(v), end)),
        },
        ChunkName::INIT => Some((SoundbankChunkTypesModel::Init, at)),
        ChunkName::STMG => Some((SoundbankChunkTypesModel::GlobalSettings, at)),
        ChunkName::STID => Some((SoundbankChunkTypesModel::SoundbankIdToString, at)),
        ChunkName::PLAT => Some((SoundbankChunkTypesModel::Platform, at)),
        ChunkName::DIDX => Some((SoundbankChunkTypesModel::MediaIndex, at)),
        ChunkName::DATA => Some((SoundbankChunkTypesModel::Data, at)),
        ChunkName::ENVS => Some((SoundbankChunkTypesModel::EnvironmentSettings, at)),
        ChunkName::Other(_) => Some((SoundbankChunkTypesModel::Unknown, at)),
    }
}

/// A chunk: its header and its body.
#[derive(Debug, PartialEq, Eq)]
pub struct SoundbankChunk {
    pub header: SoundbankChunkHeader,
    pub chunk: SoundbankChunkTypes,
}

/// The mathematical value of a [`SoundbankChunk`].
pub struct SoundbankChunkModel {
    pub header: SoundbankChunkHeader,
    pub chunk: SoundbankChunkTypesModel,
}

impl Record for SoundbankChunk {
    type Model = SoundbankChunkModel;

    open spec fn model(&self) -> SoundbankChunkModel {
        SoundbankChunkModel { header: self.header, chunk: self.chunk.model() }
    }

    /// The header, then the body that the name selects.
    open spec fn parse(s: Seq<u8>, at: int) -> Option<(SoundbankChunkModel, int)> {
        match SoundbankChunkHeader::parse(s, at) {
            None => None,
            Some((header, at1)) => match parse_chunk_body(s, at1, header.name) {
                None => None,
                Some((chunk, end)) => Some((SoundbankChunkModel { header, chunk }, end)),
            },
        }
    }

    fn read(cur: &mut Cursor) -> (r: Option<SoundbankChunk>) {
        let header = SoundbankChunkHeader::read(cur)?;
        let chunk = SoundbankChunkTypes::read(cur, header.name)?;
        Some(SoundbankChunk { header, chunk })
    }

    fn replicate(&self) -> (r: SoundbankChunk) {
        SoundbankChunk { header: self.header, chunk: self.chunk.clone() }
    }
}

impl Clone for SoundbankChunk {
    fn clone(&self) -> (r: Self)
        ensures
            r.model() == self.model(),
    {
        self.replicate()
    }
}

/// A header chunk decodes exactly when all of its 24 bytes are present and
/// its first word is the supported format version.
pub proof fn lemma_header_needs_version(s: Seq<u8>, at: int)
    ensures
        BankHeaderChunk::parse(s, at) is Some <==> fits(s, at, 24) && le_u32(s, at) == 0x8C,
        BankHeaderChunk::parse(s, at) matches Some((header, end)) ==> header.ver == 0x8C && end
            == at + 24,
{
}

/// An object with its routing tree attached. Only a switch container has
/// one: the tree rooted at record 0 of its table becomes its `paths`, unless
/// that record is a leaf, in which case the container stays as it is.
/// Where the tree cannot be built, the reason comes out.
pub open spec fn with_tree(o: HierarchyObjectModel) -> Result<HierarchyObjectModel, ParseError> {
    match o.obj {
        HierarchyObjectTypeModel::MusicSwitchContainer(sw) => match path_element_of(
            sw.path_selection_length,
            sw.path_sections,
            0,
        ) {
            Err(e) => Err(e),
            Ok(AudioPathElementModel::AudioPath(node)) => Ok(
                HierarchyObjectModel {
                    header: o.header,
                    obj: HierarchyObjectTypeModel::MusicSwitchContainer(
                        MusicSwitchContainerModel { paths: node, ..sw },
                    ),
                },
            ),
            Ok(_) => Ok(o),
        },
        _ => Ok(o),
    }
}

/// The objects with their routing trees attached, or the reason why the
/// first tree that cannot be built cannot.
pub open spec fn with_trees(objs: Seq<HierarchyObjectModel>) -> Result<
    Seq<HierarchyObjectModel>,
    ParseError,
>
    decreases objs.len(),
{
    if objs.len() == 0 {
        Ok(Seq::empty())
    } else {
        match with_trees(objs.drop_last()) {
            Err(e) => Err(e),
            Ok(init) => match with_tree(objs.last()) {
                Err(e) => Err(e),
                Ok(o) => Ok(init.push(o)),
            },
        }
    }
}

/// Builds the routing tree of every switch container among `objects` and
/// attaches it. Stops at the first container whose tree cannot be built.
pub fn attach_paths(objects: &mut Vec<HierarchyObject>) -> (r: Result<(), ParseError>)
    ensures
        final(objects)@.len() == old(objects)@.len(),
        match r {
            Ok(_) => with_trees(models(old(objects)@)) == Ok::<Seq<HierarchyObjectModel>, ParseError>(
                models(final(objects)@),
            ),
            Err(e) => with_trees(models(old(objects)@)) == Err::<
                Seq<HierarchyObjectModel>,
                ParseError,
            >(e),
        },
{
    let mut i: usize = 0;
    let ghost before = models(objects@);
    assert(before.subrange(0, 0) =~= Seq::empty());
    assert(models(objects@).subrange(0, 0) =~= Seq::empty());
    while i < objects.len()
        invariant
            i <= objects@.len(),
            objects@.len() == before.len(),
            before == models(old(objects)@),
            with_trees(before.subrange(0, i as int)) == Ok::<Seq<HierarchyObjectModel>, ParseError>(
                models(objects@).subrange(0, i as int),
            ),
            forall|j: int| i <= j < objects@.len() ==> (#[trigger] objects@[j]).model() == before[j],
        decreases objects@.len() - i,
    {
        let ghost mid = models(objects@);
        assert(before.subrange(0, i + 1).drop_last() =~= before.subrange(0, i as int));
        assert(before.subrange(0, i + 1).last() == before[i as int]);
        match &mut objects[i].obj {
            HierarchyObjectType::MusicSwitchContainer(sw) => {
                let path = match sw.read_path_element(0) {
                    Ok(p) => p,
                    Err(e) => {
                        proof {
                            lemma_with_trees_fails_on(before, i as int, e);
                        }
                        return Err(e);
                    },
                };
                if let AudioPathElement::AudioPath(node) = path {
                    sw.paths = node;
                }
            },
            _ => {},
        }
        assert(models(objects@).subrange(0, i + 1) =~= mid.subrange(0, i as int).push(
            objects@[i as int].model(),
        ));
        i = i + 1;
    }
    assert(before.subrange(0, i as int) =~= before);
    assert(models(objects@).subrange(0, i as int) =~= models(objects@));
    Ok(())
}

/// Where the tree of one object cannot be built, and those of all objects
/// before it can, building the trees of the whole list fails for that
/// object's reason.
pub proof fn lemma_with_trees_fails_on(objs: Seq<HierarchyObjectModel>, i: int, e: ParseError)
    requires
        0 <= i < objs.len(),
        with_trees(objs.subrange(0, i)) is Ok,
        with_tree(objs[i]) == Err::<HierarchyObjectModel, ParseError>(e),
    ensures
        with_trees(objs) == Err::<Seq<HierarchyObjectModel>, ParseError>(e),
    decreases objs.len(),
{
    if i + 1 == objs.len() {
        assert(objs.drop_last() =~= objs.subrange(0, i));
    } else {
        assert(objs.drop_last().subrange(0, i) =~= objs.subrange(0, i));
        lemma_with_trees_fails_on(objs.drop_last(), i, e);
    }
}

/// A chunk with what follows the two leading chunks read into it: for the
/// hierarchy chunk its objects, read from `at` on, with their routing trees
/// attached. Every other chunk stays as it is and takes no bytes.
pub open spec fn fill_chunk(c: SoundbankChunkModel, s: Seq<u8>, at: int) -> Result<
    (SoundbankChunkModel, int),
    ParseError,
> {
    match c.chunk {
        SoundbankChunkTypesModel::Hierarchy(h) => match parse_many::<HierarchyObject>(
            s,
            at,
            h.object_count as nat,
        ) {
            None => Err(ParseError::InvalidObject),
            Some((objs, end)) => match with_trees(h.objects + objs) {
                Err(e) => Err(e),
                Ok(done) => Ok(
                    (
                        SoundbankChunkModel {
                            header: c.header,
                            chunk: SoundbankChunkTypesModel::Hierarchy(
                                HierarchyChunkModel { object_count: h.object_count, objects: done },
                            ),
                        },
                        end,
                    ),
                ),
            },
        },
        _ => Ok((c, at)),
    }
}

fn read_chunk_contents(chunk: SoundbankChunk, cur: &mut Cursor) -> (r: Result<
    SoundbankChunk,
    ParseError,
>)
    ensures
        final(cur).bytes() == old(cur).bytes(),
        match r {
            Ok(done) => fill_chunk(chunk.model(), old(cur).bytes(), old(cur).offset()) == Ok::<
                (SoundbankChunkModel, int),
                ParseError,
            >((done.model(), final(cur).offset())),
            Err(e) => fill_chunk(chunk.model(), old(cur).bytes(), old(cur).offset()) == Err::<
                (SoundbankChunkModel, int),
                ParseError,
            >(e),
        },
{
    let header = chunk.header;
    match chunk.chunk {
        SoundbankChunkTypes::Hierarchy(hirc) => {
            let mut hirc = hirc;
            match hirc.read_hierarchy(cur) {
                Ok(_) => {},
                Err(e) => {
                    return Err(e);
                },
            }
            match attach_paths(&mut hirc.objects) {
                Ok(_) => {},
                Err(e) => {
                    return Err(e);
                },
            }
            Ok(SoundbankChunk { header, chunk: SoundbankChunkTypes::Hierarchy(hirc) })
        },
        other => Ok(SoundbankChunk { header, chunk: other }),
    }
}

/// What decoding a bank yields: its two leading chunks, the objects of the
/// hierarchy read from behind them and the routing trees attached; or the
/// reason why not.
pub open spec fn parse_bank(s: Seq<u8>) -> Result<Seq<SoundbankChunkModel>, ParseError> {
    match SoundbankChunk::parse(s, 0) {
        None => Err(ParseError::InvalidSoundbankHeader),
        Some((first, at1)) => match SoundbankChunk::parse(s, at1) {
            None => Err(ParseError::InvalidSoundbankHeader),
            Some((second, at2)) => match fill_chunk(first, s, at2) {
                Err(e) => Err(e),
                Ok((first_done, at3)) => match fill_chunk(second, s, at3) {
                    Err(e) => Err(e),
                    Ok((second_done, _)) => Ok(seq![first_done, second_done]),
                },
            },
        },
    }
}

/// Decodes a bank.
///
/// The two leading chunks are read first, each by its name. Then the
/// objects of the hierarchy chunk are read from the bytes behind them, and
/// the routing tree of every switch container is built. No partial result
/// comes out: the bank decodes as a whole or not at all.
pub fn parse(data: &[u8]) -> (r: Result<Vec<SoundbankChunk>, ParseError>)
    ensures
        match r {
            Ok(chunks) => parse_bank(data@) == Ok::<Seq<SoundbankChunkModel>, ParseError>(
                models(chunks@),
            ),
            Err(e) => parse_bank(data@) == Err::<Seq<SoundbankChunkModel>, ParseError>(e),
        },
{
    let mut cur = Cursor::new(data);
    let first = match SoundbankChunk::read(&mut cur) {
        Some(c) => c,
        None => {
            return Err(ParseError::InvalidSoundbankHeader);
        },
    };
    let second = match SoundbankChunk::read(&mut cur) {
        Some(c) => c,
        None => {
            return Err(ParseError::InvalidSoundbankHeader);
        },
    };
    let first = match read_chunk_contents(first, &mut cur) {
        Ok(c) => c,
        Err(e) => {
            return Err(e);
        },
    };
    let second = match read_chunk_contents(second, &mut cur) {
        Ok(c) => c,
        Err(e) => {
            return Err(e);
        },
    };
    let mut chunks: Vec<SoundbankChunk> = Vec::new();
    chunks.push(first);
    chunks.push(second);
    assert(models(chunks@) =~= seq![first.model(), second.model()]);
    Ok(chunks)
}

} // verus!
