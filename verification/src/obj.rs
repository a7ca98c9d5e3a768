//! Assembling triangles from the statements of a mesh description.
//!
//! A description lists positions, texture coordinates and normals, and faces
//! that refer to them by index: counted from one, or, where negative, back
//! from the end of what has been listed so far.

use vstd::prelude::*;
use crate::scalar::Scalar;
use crate::vector::{Vec2, Vec3};

verus! {

/// Whether `i` names one of `len` listed items.
pub open spec fn index_in_range(i: int, len: int) -> bool {
    i != 0 && -len <= i <= len
}

/// The place in the list that the index `i` names.
pub open spec fn index_place(i: int, len: int) -> int {
    if i < 0 {
        len + i
    } else {
        i - 1
    }
}

/// An index in range names a place in the list; counted from one it names
/// place `i - 1`, and counted back from the end the last item is -1 and the
/// first is minus the length. The two ways of counting name the same place
/// where they differ by the length plus one.
pub proof fn index_names_a_place(i: int, len: int)
    requires
        index_in_range(i, len),
    ensures
        0 <= index_place(i, len) < len,
        i > 0 ==> index_place(i, len) == i - 1,
        index_place(-1, len) == len - 1,
        index_place(-len, len) == 0,
        i < 0 ==> index_in_range(len + 1 + i, len) && index_place(len + 1 + i, len) == index_place(
            i,
            len,
        ),
{
}

/// The item that the index `i` names: item `i` counted from one, or, for a
/// negative `i`, counted back from the end, -1 being the last.
pub fn index_wrap<T: Copy>(i: isize, items: &Vec<T>) -> (r: T)
    requires
        index_in_range(i as int, items@.len() as int),
    ensures
        r == items@[index_place(i as int, items@.len() as int)],
{
    if i < 0 {
        let back: usize = (-(i + 1)) as usize;
        items[items.len() - 1 - back]
    } else {
        items[(i - 1) as usize]
    }
}

/// As [`index_wrap`], with `None` for an index that names nothing.
pub fn index_lookup<T: Copy>(i: isize, items: &Vec<T>) -> (r: Option<T>)
    ensures
        r == (if index_in_range(i as int, items@.len() as int) {
            Some(items@[index_place(i as int, items@.len() as int)])
        } else {
            None
        }),
{
    if i == 0 {
        return None;
    }
    if i < 0 {
        let back: usize = (-(i + 1)) as usize;
        if back >= items.len() {
            return None;
        }
    } else {
        if (i as usize) > items.len() {
            return None;
        }
    }
    Some(index_wrap(i, items))
}

/// What [`parse_uv`] makes of the fields of a statement: a texture
/// coordinate where the first two fields are both numbers. A statement with
/// fewer than two fields, or with one of the two unreadable, gives none.
/// Fields after the second are not looked at.
pub open spec fn uv_of(fields: Seq<Option<Scalar>>) -> Option<Vec2> {
    if fields.len() >= 2 && fields[0] is Some && fields[1] is Some {
        Some(Vec2 { x: fields[0]->Some_0, y: fields[1]->Some_0 })
    } else {
        None
    }
}

/// What [`parse_vec3`] makes of the fields of a statement: a point or
/// direction where the first three fields are all numbers. A statement with
/// fewer than three fields, or with one of the three unreadable, gives none.
/// Fields after the third are not looked at.
pub open spec fn vec3_of(fields: Seq<Option<Scalar>>) -> Option<Vec3> {
    if fields.len() >= 3 && fields[0] is Some && fields[1] is Some && fields[2] is Some {
        Some(Vec3 { x: fields[0]->Some_0, y: fields[1]->Some_0, z: fields[2]->Some_0 })
    } else {
        None
    }
}

/// A texture coordinate from the first two fields of a statement. Each field
/// is the number that it writes, or `None` where it writes none.
pub fn parse_uv(fields: &Vec<Option<Scalar>>) -> (r: Option<Vec2>)
    ensures
        r == uv_of(fields@),
{
    if fields.len() < 2 {
        return None;
    }
    match (fields[0], fields[1]) {
        (Some(x), Some(y)) => Some(Vec2::new(x, y)),
        _ => None,
    }
}

/// A point or direction from the first three fields of a statement. Each
/// field is the number that it writes, or `None` where it writes none.
pub fn parse_vec3(fields: &Vec<Option<Scalar>>) -> (r: Option<Vec3>)
    ensures
        r == vec3_of(fields@),
{
    if fields.len() < 3 {
        return None;
    }
    match (fields[0], fields[1], fields[2]) {
        (Some(x), Some(y), Some(z)) => Some(Vec3::new(x, y, z)),
        _ => None,
    }
}

/// A statement with an unreadable number among the fields that are read
/// gives nothing, whatever the other fields hold; one whose fields that are
/// read are all numbers gives exactly those, whatever follows them.
pub proof fn unreadable_number_gives_nothing(fields: Seq<Option<Scalar>>)
    ensures
        fields.len() >= 2 && (fields[0] is None || fields[1] is None) ==> uv_of(fields) is None,
        fields.len() >= 3 && (fields[0] is None || fields[1] is None || fields[2] is None)
            ==> vec3_of(fields) is None,
        uv_of(fields) matches Some(t) ==> fields[0] == Some(t.x) && fields[1] == Some(t.y),
        vec3_of(fields) matches Some(p) ==> fields[0] == Some(p.x) && fields[1] == Some(p.y)
            && fields[2] == Some(p.z),
{
}

/// An index as a corner of a face writes it.
#[derive(Clone, Copy, PartialEq, Eq, Structural, Debug)]
pub enum FaceIndex {
    /// Nothing is written in its place.
    Absent,
    /// The index that is written.
    At(isize),
    /// Something is written in its place that is no index.
    Unreadable,
}

/// One corner of a face as the description writes it: the index of its
/// position and, where given, those of its texture coordinate and normal.
#[derive(Clone, Copy, PartialEq, Eq, Structural, Debug)]
pub struct Corner {
    pub pos: FaceIndex,
    pub uv: FaceIndex,
    pub normal: FaceIndex,
}

/// One corner of a face with its indices resolved. A corner that names no
/// normal has none: it takes the flat normal of its triangle.
#[derive(Clone, Copy, PartialEq, Eq, Structural, Debug)]
pub struct FaceVertex {
    pub pos: Vec3,
    pub uv: Vec2,
    pub normal: Option<Vec3>,
}

/// A triangular face with its indices resolved.
#[derive(Clone, Copy, PartialEq, Eq, Structural, Debug)]
pub struct Face {
    pub a: FaceVertex,
    pub b: FaceVertex,
    pub c: FaceVertex,
}

/// Why a face cannot be read.
#[derive(Clone, Copy, PartialEq, Eq, Structural, Debug)]
pub enum Fault {
    /// A corner names no position.
    MissingPosition,
    /// A corner holds, in the place of an index, what is no index.
    UnreadableIndex,
    /// An index is zero or names an item that has not been listed.
    IndexOutOfRange,
}

impl Fault {
    /// The fault in words.
    pub open spec fn text(self) -> Seq<char> {
        match self {
            Fault::MissingPosition => "position required for triangle definition"@,
            Fault::UnreadableIndex => "unreadable index in triangle definition"@,
            Fault::IndexOutOfRange => "index out of range in triangle definition"@,
        }
    }

    /// The fault in words, for whoever reports it.
    pub fn message(self) -> (r: &'static str)
        ensures
            r@ == self.text(),
    {
        match self {
            Fault::MissingPosition => "position required for triangle definition",
            Fault::UnreadableIndex => "unreadable index in triangle definition",
            Fault::IndexOutOfRange => "index out of range in triangle definition",
        }
    }
}

/// A fault, and the place in the list of statements where it was found.
#[derive(Clone, Copy, PartialEq, Eq, Structural, Debug)]
pub struct LoadError {
    pub at: usize,
    pub fault: Fault,
}

/// One statement of a description, its numeric fields read.
#[derive(Debug)]
pub enum Entry {
    /// `v`: a position.
    Position(Vec<Option<Scalar>>),
    /// `vt`: a texture coordinate.
    TexCoord(Vec<Option<Scalar>>),
    /// `vn`: a normal.
    Normal(Vec<Option<Scalar>>),
    /// `f`: a face.
    Face(Vec<Corner>),
    /// Anything else: a comment, an empty line, a statement of another kind.
    Other,
}

/// An optional index resolved against a list: absent stays absent; what is
/// no index is a fault, and so is an index that names nothing.
pub open spec fn optional_item<T>(i: FaceIndex, items: Seq<T>) -> Result<Option<T>, Fault> {
    match i {
        FaceIndex::Absent => Ok(None),
        FaceIndex::Unreadable => Err(Fault::UnreadableIndex),
        FaceIndex::At(i) => if index_in_range(i as int, items.len() as int) {
            Ok(Some(items[index_place(i as int, items.len() as int)]))
        } else {
            Err(Fault::IndexOutOfRange)
        },
    }
}

/// A corner resolved against the lists. The position is looked at first, then
/// the texture coordinate, then the normal, and the first fault is the one
/// reported. A corner that writes nothing for its texture coordinate gets the
/// origin.
pub open spec fn vertex_of(
    corner: Corner,
    verts: Seq<Vec3>,
    coords: Seq<Vec2>,
    norms: Seq<Vec3>,
) -> Result<FaceVertex, Fault> {
    match corner.pos {
        FaceIndex::Absent => Err(Fault::MissingPosition),
        FaceIndex::Unreadable => Err(Fault::UnreadableIndex),
        FaceIndex::At(p) => if !index_in_range(p as int, verts.len() as int) {
            Err(Fault::IndexOutOfRange)
        } else {
            match optional_item(corner.uv, coords) {
                Err(f) => Err(f),
                Ok(uv) => match optional_item(corner.normal, norms) {
                    Err(f) => Err(f),
                    Ok(normal) => Ok(
                        FaceVertex {
                            pos: verts[index_place(p as int, verts.len() as int)],
                            uv: match uv {
                                Some(uv) => uv,
                                None => Vec2::origin(),
                            },
                            normal,
                        },
                    ),
                },
            }
        },
    }
}

/// The face that the first three corners make. The corners are resolved in
/// order, and a fault in one of them is reported even where a later corner is
/// wanting; with fewer than three corners and no fault there is no face.
/// Corners after the third are not looked at.
pub open spec fn face_of(
    corners: Seq<Corner>,
    verts: Seq<Vec3>,
    coords: Seq<Vec2>,
    norms: Seq<Vec3>,
) -> Result<Option<Face>, Fault> {
    if corners.len() < 1 {
        Ok(None)
    } else {
        match vertex_of(corners[0], verts, coords, norms) {
            Err(f) => Err(f),
            Ok(a) => if corners.len() < 2 {
                Ok(None)
            } else {
                match vertex_of(corners[1], verts, coords, norms) {
                    Err(f) => Err(f),
                    Ok(b) => if corners.len() < 3 {
                        Ok(None)
                    } else {
                        match vertex_of(corners[2], verts, coords, norms) {
                            Err(f) => Err(f),
                            Ok(c) => Ok(Some(Face { a, b, c })),
                        }
                    },
                }
            },
        }
    }
}

fn optional_lookup<T: Copy>(i: FaceIndex, items: &Vec<T>) -> (r: Result<Option<T>, Fault>)
    ensures
        r == optional_item(i, items@),
{
    match i {
        FaceIndex::Absent => Ok(None),
        FaceIndex::Unreadable => Err(Fault::UnreadableIndex),
        FaceIndex::At(i) => match index_lookup(i, items) {
            Some(item) => Ok(Some(item)),
            None => Err(Fault::IndexOutOfRange),
        },
    }
}

/// A corner is resolved only where its position is an index and neither of
/// the other two is unreadable; an unreadable index is a fault wherever it
/// stands, unless an earlier fault of the corner is reported in its place.
pub proof fn unreadable_index_is_a_fault(
    corner: Corner,
    verts: Seq<Vec3>,
    coords: Seq<Vec2>,
    norms: Seq<Vec3>,
)
    ensures
        vertex_of(corner, verts, coords, norms) is Ok ==> corner.pos is At && !(corner.uv
            is Unreadable) && !(corner.normal is Unreadable),
        corner.pos is Unreadable ==> vertex_of(corner, verts, coords, norms) == Err::<
            FaceVertex,
            Fault,
        >(Fault::UnreadableIndex),
        corner.pos is At && corner.uv is Unreadable ==> vertex_of(corner, verts, coords, norms)
            is Err,
        corner.pos is At && corner.normal is Unreadable ==> vertex_of(
            corner,
            verts,
            coords,
            norms,
        ) is Err,
{
}

/// Resolves the indices of one corner against what has been listed.
pub fn resolve_corner(
    corner: Corner,
    verts: &Vec<Vec3>,
    coords: &Vec<Vec2>,
    norms: &Vec<Vec3>,
) -> (r: Result<FaceVertex, Fault>)
    ensures
        r == vertex_of(corner, verts@, coords@, norms@),
{
    let p = match corner.pos {
        FaceIndex::Absent => {
            return Err(Fault::MissingPosition);
        },
        FaceIndex::Unreadable => {
            return Err(Fault::UnreadableIndex);
        },
        FaceIndex::At(p) => p,
    };
    let pos = match index_lookup(p, verts) {
        None => {
            return Err(Fault::IndexOutOfRange);
        },
        Some(pos) => pos,
    };
    let uv = match optional_lookup(corner.uv, coords) {
        Err(f) => {
            return Err(f);
        },
        Ok(Some(uv)) => uv,
        Ok(None) => Vec2::zero(),
    };
    let normal = match optional_lookup(corner.normal, norms) {
        Err(f) => {
            return Err(f);
        },
        Ok(normal) => normal,
    };
    Ok(FaceVertex { pos, uv, normal })
}

/// Makes a face of the first three corners of a face statement, resolving
/// their indices against what has been listed so far.
pub fn parse_triangle(
    corners: &Vec<Corner>,
    verts: &Vec<Vec3>,
    coords: &Vec<Vec2>,
    norms: &Vec<Vec3>,
) -> (r: Result<Option<Face>, Fault>)
    ensures
        r == face_of(corners@, verts@, coords@, norms@),
{
    if corners.len() < 1 {
        return Ok(None);
    }
    let a = match resolve_corner(corners[0], verts, coords, norms) {
        Err(f) => {
            return Err(f);
        },
        Ok(v) => v,
    };
    if corners.len() < 2 {
        return Ok(None);
    }
    let b = match resolve_corner(corners[1], verts, coords, norms) {
        Err(f) => {
            return Err(f);
        },
        Ok(v) => v,
    };
    if corners.len() < 3 {
        return Ok(None);
    }
    let c = match resolve_corner(corners[2], verts, coords, norms) {
        Err(f) => {
            return Err(f);
        },
        Ok(v) => v,
    };
    Ok(Some(Face { a, b, c }))
}

/// What has been listed after some statements of a description.
pub struct Lists {
    pub verts: Seq<Vec3>,
    pub coords: Seq<Vec2>,
    pub norms: Seq<Vec3>,
    pub faces: Seq<Face>,
}

/// The lists before the first statement.
pub open spec fn no_lists() -> Lists {
    Lists { verts: Seq::empty(), coords: Seq::empty(), norms: Seq::empty(), faces: Seq::empty() }
}

/// The lists after one more statement. A statement with too few fields or
/// with an unreadable number among those that are read, and a face with too
/// few corners, change nothing.
pub open spec fn lists_with(lists: Lists, entry: Entry) -> Result<Lists, Fault> {
    match entry {
        Entry::Position(fields) => Ok(
            match vec3_of(fields@) {
                Some(p) => Lists { verts: lists.verts.push(p), ..lists },
                None => lists,
            },
        ),
        Entry::TexCoord(fields) => Ok(
            match uv_of(fields@) {
                Some(t) => Lists { coords: lists.coords.push(t), ..lists },
                None => lists,
            },
        ),
        Entry::Normal(fields) => Ok(
            match vec3_of(fields@) {
                Some(n) => Lists { norms: lists.norms.push(n), ..lists },
                None => lists,
            },
        ),
        Entry::Face(corners) => match face_of(corners@, lists.verts, lists.coords, lists.norms) {
            Err(f) => Err(f),
            Ok(Some(face)) => Ok(Lists { faces: lists.faces.push(face), ..lists }),
            Ok(None) => Ok(lists),
        },
        Entry::Other => Ok(lists),
    }
}

/// The lists after all of `entries`, read in order, or the first fault with
/// its place.
pub open spec fn lists_after(entries: Seq<Entry>) -> Result<Lists, LoadError>
    decreases entries.len(),
{
    if entries.len() == 0 {
        Ok(no_lists())
    } else {
        match lists_after(entries.drop_last()) {
            Err(e) => Err(e),
            Ok(lists) => match lists_with(lists, entries.last()) {
                Err(fault) => Err(LoadError { at: (entries.len() - 1) as usize, fault }),
                Ok(next) => Ok(next),
            },
        }
    }
}

/// A fault among the first statements is a fault of the whole description.
pub proof fn fault_is_final(entries: Seq<Entry>, n: int)
    requires
        0 <= n <= entries.len(),
        lists_after(entries.take(n)) is Err,
    ensures
        lists_after(entries) == lists_after(entries.take(n)),
    decreases entries.len() - n,
{
    if n == entries.len() {
        assert(entries.take(n) == entries);
    } else {
        assert(entries.take(n + 1).drop_last() == entries.take(n));
        fault_is_final(entries, n + 1);
    }
}

/// Reads the statements of a description in order and hands back its faces,
/// in the order of their statements. Every face is resolved against what was
/// listed before it. The first face that cannot be read fails the load.
pub fn load(entries: &Vec<Entry>) -> (r: Result<Vec<Face>, LoadError>)
    ensures
        match r {
            Ok(faces) => lists_after(entries@) is Ok && lists_after(entries@)->Ok_0.faces == faces@,
            Err(e) => lists_after(entries@) == Err::<Lists, LoadError>(e),
        },
{
    let mut verts: Vec<Vec3> = Vec::new();
    let mut coords: Vec<Vec2> = Vec::new();
    let mut norms: Vec<Vec3> = Vec::new();
    let mut faces: Vec<Face> = Vec::new();
    let mut i: usize = 0;
    proof {
        assert(entries@.take(0) == Seq::<Entry>::empty());
    }
    while i < entries.len()
        invariant
            0 <= i <= entries@.len(),
            lists_after(entries@.take(i as int)) == Ok::<Lists, LoadError>(
                Lists { verts: verts@, coords: coords@, norms: norms@, faces: faces@ },
            ),
        decreases entries@.len() - i,
    {
        proof {
            assert(entries@.take(i + 1).drop_last() == entries@.take(i as int));
            assert(entries@.take(i + 1).last() == entries@[i as int]);
        }
        match &entries[i] {
            Entry::Position(fields) => {
                if let Some(p) = parse_vec3(fields) {
                    verts.push(p);
                }
            },
            Entry::TexCoord(fields) => {
                if let Some(t) = parse_uv(fields) {
                    coords.push(t);
                }
            },
            Entry::Normal(fields) => {
                if let Some(n) = parse_vec3(fields) {
                    norms.push(n);
                }
            },
            Entry::Face(corners) => {
                match parse_triangle(corners, &verts, &coords, &norms) {
                    Err(fault) => {
                        proof {
                            fault_is_final(entries@, i + 1);
                        }
                        return Err(LoadError { at: i, fault });
                    },
                    Ok(Some(face)) => {
                        faces.push(face);
                    },
                    Ok(None) => {},
                }
            },
            Entry::Other => {},
        }
        i += 1;
    }
    proof {
        assert(entries@.take(i as int) == entries@);
    }
    Ok(faces)
}

} // verus!
