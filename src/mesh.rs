//! Mesh ingestion over vertex indices: which primitives are accepted, which
//! position each output corner takes, and where its normal comes from.
//!
//! Coordinates stay with the caller; a triangle plan names them by index.

use vstd::prelude::*;
use vstd::string::StringSliceAdditionalSpecFns;
use wavefront_obj::obj::ObjSet;
use crate::faces::{
    find_long_negative_index, find_oversized_face, first_long_negative_index, first_oversized_face,
};

verus! {

#[verifier::external_type_specification]
#[verifier::external_body]
pub struct ExObjSet(wavefront_obj::obj::ObjSet);

/// One corner reference of a face: a position index, and optional texture
/// and normal indices (all counted from 0).
#[derive(Clone, Copy, Debug, PartialEq, Eq, Structural)]
pub struct VertexRef {
    pub position: usize,
    pub texture: Option<usize>,
    pub normal: Option<usize>,
}

/// A primitive as read from a face or line statement.
#[derive(Clone, Copy, Debug, PartialEq, Eq, Structural)]
pub enum Primitive {
    Point(VertexRef),
    Line(VertexRef, VertexRef),
    Triangle(VertexRef, VertexRef, VertexRef),
}

/// Where the normal of an output vertex comes from.
#[derive(Clone, Copy, Debug, PartialEq, Eq, Structural)]
pub enum NormalSource {
    /// The stored normal with this index, used verbatim.
    Stored(usize),
    /// The flat face normal `normalize(-(p1 - p0) x (p2 - p0))` of the
    /// positions with these indices, in this order.
    Synthesized(usize, usize, usize),
}

/// One output vertex: a position index and the source of its normal.
#[derive(Clone, Copy, Debug, PartialEq, Eq, Structural)]
pub struct Corner {
    pub position: usize,
    pub normal: NormalSource,
}

/// The three output vertices made from one triangular face.
#[derive(Clone, Copy, Debug, PartialEq, Eq, Structural)]
pub struct Triangle {
    pub a: Corner,
    pub b: Corner,
    pub c: Corner,
}

/// Why a mesh could not be loaded.
#[derive(Debug, PartialEq, Eq)]
pub enum MeshError {
    /// The `.obj` text is malformed.
    Parse { line: usize, message: String },
    /// A primitive other than a triangle; `at_line` is known when the face was
    /// caught on the text.
    UnsupportedPrimitive { at_line: Option<usize> },
    /// A face refers to a position or normal that the object does not have.
    IndexOutOfRange,
}

/// An object of a mesh file, reduced to what triangulation reads: its name,
/// how many positions and normals it has, and its faces.
#[derive(Debug)]
pub struct RawObject {
    pub name: String,
    pub position_count: usize,
    pub normal_count: usize,
    pub faces: Vec<Primitive>,
}

pub open spec fn ref_in_range(r: VertexRef, position_count: nat, normal_count: nat) -> bool {
    &&& r.position < position_count
    &&& r.normal matches Some(n) ==> n < normal_count
}

/// The output vertex for corner `r` of the face `(p0, p1, p2)`.
pub open spec fn corner_of(r: VertexRef, p0: usize, p1: usize, p2: usize) -> Corner {
    Corner {
        position: r.position,
        normal: match r.normal {
            Some(n) => NormalSource::Stored(n),
            None => NormalSource::Synthesized(p0, p1, p2),
        },
    }
}

/// What triangulating `face` gives: a triangle whose vertices take the face's
/// corners in order, or the reason it is refused.
pub open spec fn triangulation(face: Primitive, position_count: nat, normal_count: nat) -> Result<
    Triangle,
    MeshError,
> {
    match face {
        Primitive::Triangle(x, y, z) => {
            if ref_in_range(x, position_count, normal_count) && ref_in_range(
                y,
                position_count,
                normal_count,
            ) && ref_in_range(z, position_count, normal_count) {
                Ok(
                    Triangle {
                        a: corner_of(x, x.position, y.position, z.position),
                        b: corner_of(y, x.position, y.position, z.position),
                        c: corner_of(z, x.position, y.position, z.position),
                    },
                )
            } else {
                Err(MeshError::IndexOutOfRange)
            }
        },
        _ => Err(MeshError::UnsupportedPrimitive { at_line: None }),
    }
}

fn in_range(r: VertexRef, position_count: usize, normal_count: usize) -> (b: bool)
    ensures
        b == ref_in_range(r, position_count as nat, normal_count as nat),
{
    r.position < position_count && match r.normal {
        Some(n) => n < normal_count,
        None => true,
    }
}

fn make_corner(r: VertexRef, p0: usize, p1: usize, p2: usize) -> (c: Corner)
    ensures
        c == corner_of(r, p0, p1, p2),
{
    let normal = match r.normal {
        Some(n) => NormalSource::Stored(n),
        None => NormalSource::Synthesized(p0, p1, p2),
    };
    Corner { position: r.position, normal }
}

/// Triangulates one face of an object with `position_count` positions and
/// `normal_count` normals. Only triangles are accepted.
///
/// The three output vertices take the face's corners `v0, v1, v2` in order.
/// A corner with a normal index takes that stored normal; one without takes
/// the face normal of `(p0, p1, p2)` in the face's own order.
pub fn triangulate(face: &Primitive, position_count: usize, normal_count: usize) -> (r: Result<
    Triangle,
    MeshError,
>)
    ensures
        r == triangulation(*face, position_count as nat, normal_count as nat),
{
    match *face {
        Primitive::Triangle(x, y, z) => {
            if in_range(x, position_count, normal_count) && in_range(
                y,
                position_count,
                normal_count,
            ) && in_range(z, position_count, normal_count) {
                let (p0, p1, p2) = (x.position, y.position, z.position);
                Ok(
                    Triangle {
                        a: make_corner(x, p0, p1, p2),
                        b: make_corner(y, p0, p1, p2),
                        c: make_corner(z, p0, p1, p2),
                    },
                )
            } else {
                Err(MeshError::IndexOutOfRange)
            }
        },
        _ => Err(MeshError::UnsupportedPrimitive { at_line: None }),
    }
}


/// The three output vertices of a triangle, in order.
pub open spec fn corners_of(t: Triangle) -> Seq<Corner> {
    seq![t.a, t.b, t.c]
}

/// The vertex stream of the faces: their triangles' vertices one after the
/// other, or the error of the first face that is refused.
pub open spec fn stream_of(faces: Seq<Primitive>, position_count: nat, normal_count: nat) -> Result<
    Seq<Corner>,
    MeshError,
>
    decreases faces.len(),
{
    if faces.len() == 0 {
        Ok(Seq::empty())
    } else {
        match stream_of(faces.drop_last(), position_count, normal_count) {
            Err(e) => Err(e),
            Ok(s) => match triangulation(faces.last(), position_count, normal_count) {
                Err(e) => Err(e),
                Ok(t) => Ok(s + corners_of(t)),
            },
        }
    }
}

proof fn lemma_error_persists(
    faces: Seq<Primitive>,
    position_count: nat,
    normal_count: nat,
    j: int,
    k: int,
    e: MeshError,
)
    requires
        0 <= j <= k <= faces.len(),
        stream_of(faces.take(j), position_count, normal_count) == Err::<Seq<Corner>, MeshError>(e),
    ensures
        stream_of(faces.take(k), position_count, normal_count) == Err::<Seq<Corner>, MeshError>(e),
    decreases k - j,
{
    if k > j {
        lemma_error_persists(faces, position_count, normal_count, j, k - 1, e);
        assert(faces.take(k).drop_last() =~= faces.take(k - 1));
    }
}

impl RawObject {
    /// The object's vertex stream: three vertices per face, in face order,
    /// or the error of the first face that cannot be triangulated.
    pub fn vertex_stream(&self) -> (r: Result<Vec<Corner>, MeshError>)
        ensures
            match r {
                Ok(v) => stream_of(self.faces@, self.position_count as nat, self.normal_count as nat)
                    == Ok::<Seq<Corner>, MeshError>(v@),
                Err(e) => stream_of(self.faces@, self.position_count as nat, self.normal_count as nat)
                    == Err::<Seq<Corner>, MeshError>(e),
            },
            r matches Ok(v) ==> v@.len() == 3 * self.faces@.len(),
    {
        let faces = &self.faces;
        let ghost pc = self.position_count as nat;
        let ghost nc = self.normal_count as nat;
        let mut out: Vec<Corner> = Vec::new();
        let mut i: usize = 0;
        while i < faces.len()
            invariant
                i <= faces@.len(),
                faces == &self.faces,
                pc == self.position_count as nat,
                nc == self.normal_count as nat,
                stream_of(faces@.take(i as int), pc, nc) == Ok::<Seq<Corner>, MeshError>(out@),
                out@.len() == 3 * i,
            decreases faces@.len() - i,
        {
            proof {
                assert(faces@.take(i + 1).drop_last() =~= faces@.take(i as int));
                assert(faces@.take(i + 1).last() == faces@[i as int]);
            }
            match triangulate(&faces[i], self.position_count, self.normal_count) {
                Err(e) => {
                    proof {
                        lemma_error_persists(faces@, pc, nc, i + 1, faces@.len() as int, e);
                        assert(faces@.take(faces@.len() as int) =~= faces@);
                    }
                    return Err(e);
                },
                Ok(t) => {
                    let ghost before = out@;
                    out.push(t.a);
                    out.push(t.b);
                    out.push(t.c);
                    proof {
                        assert(out@ =~= before + corners_of(t));
                    }
                },
            }
            i = i + 1;
        }
        proof {
            assert(faces@.take(faces@.len() as int) =~= faces@);
        }
        Ok(out)
    }
}


/// Triangulating a triangle whose corners carry normal indices gives
/// vertices whose normals are exactly those stored normals, corner by
/// corner; nothing is synthesized for them.
pub proof fn lemma_stored_normals_kept(
    x: VertexRef,
    y: VertexRef,
    z: VertexRef,
    position_count: nat,
    normal_count: nat,
)
    requires
        ref_in_range(x, position_count, normal_count),
        ref_in_range(y, position_count, normal_count),
        ref_in_range(z, position_count, normal_count),
    ensures
        triangulation(Primitive::Triangle(x, y, z), position_count, normal_count) matches Ok(t) && (
        x.normal matches Some(n) ==> t.a.normal == NormalSource::Stored(n)) && (
        y.normal matches Some(n) ==> t.b.normal == NormalSource::Stored(n)) && (
        z.normal matches Some(n) ==> t.c.normal == NormalSource::Stored(n)),
{
}

/// Triangulating a triangle whose corners carry no normal index gives three
/// vertices, at the corners' positions in order, that all share one
/// synthesized face normal, taken over the face's positions in their
/// original order.
pub proof fn lemma_face_normal_shared(
    x: VertexRef,
    y: VertexRef,
    z: VertexRef,
    position_count: nat,
    normal_count: nat,
)
    requires
        ref_in_range(x, position_count, normal_count),
        ref_in_range(y, position_count, normal_count),
        ref_in_range(z, position_count, normal_count),
        x.normal is None,
        y.normal is None,
        z.normal is None,
    ensures
        triangulation(Primitive::Triangle(x, y, z), position_count, normal_count) matches Ok(t) && t.a
            == (Corner {
            position: x.position,
            normal: NormalSource::Synthesized(x.position, y.position, z.position),
        }) && t.b == (Corner {
            position: y.position,
            normal: NormalSource::Synthesized(x.position, y.position, z.position),
        }) && t.c == (Corner {
            position: z.position,
            normal: NormalSource::Synthesized(x.position, y.position, z.position),
        }),
{
}

/// The vertex stream of a list of faces holds three vertices per face: the
/// vertices `3k`, `3k + 1` and `3k + 2` are those of the triangle made
/// from face `k`.
pub proof fn lemma_stream_layout(faces: Seq<Primitive>, position_count: nat, normal_count: nat)
    requires
        stream_of(faces, position_count, normal_count) is Ok,
    ensures
        ({
            let s = stream_of(faces, position_count, normal_count)->Ok_0;
            &&& s.len() == 3 * faces.len()
            &&& forall|k: int|
                0 <= k < faces.len() ==> ((#[trigger] triangulation(
                    faces[k],
                    position_count,
                    normal_count,
                )) matches Ok(t) && s[3 * k] == t.a && s[3 * k + 1] == t.b && s[3 * k + 2] == t.c)
        }),
    decreases faces.len(),
{
    if faces.len() > 0 {
        let init = faces.drop_last();
        lemma_stream_layout(init, position_count, normal_count);
        let s0 = stream_of(init, position_count, normal_count)->Ok_0;
        let s = stream_of(faces, position_count, normal_count)->Ok_0;
        assert forall|k: int| 0 <= k < faces.len() implies (#[trigger] triangulation(
            faces[k],
            position_count,
            normal_count,
        )) matches Ok(t) && s[3 * k] == t.a && s[3 * k + 1] == t.b && s[3 * k + 2] == t.c by {
            if k < faces.len() - 1 {
                assert(init[k] == faces[k]);
                assert(triangulation(init[k], position_count, normal_count) is Ok);
            }
        }
    }
}

/// Whether `wavefront_obj::obj::parse` accepts the text.
pub uninterp spec fn obj_accepts(text: Seq<char>) -> bool;

/// Relies on `wavefront_obj::obj::parse`: whether it succeeds depends on the
/// text alone, and its error carries the line number and a message. The
/// reader turns a negative index `x` into `max - x` in `isize`, with `max`
/// one more than the vertices read so far; that overflows, and panics,
/// only where `|x|` is near `isize::MAX`, which takes 19 digits. Hence the
/// requirement that no face or line statement write a negative index in a
/// word of `LONG_WORD` bytes or more.
#[verifier::external_body]
fn parse_obj(text: &str) -> (r: Result<ObjSet, MeshError>)
    requires
        first_long_negative_index(text.spec_bytes()) is None,
    ensures
        r is Ok <==> obj_accepts(text@),
        r matches Err(e) ==> e is Parse,
{
    match wavefront_obj::obj::parse(text) {
        Ok(set) => Ok(set),
        Err(e) => Err(MeshError::Parse { line: e.line_number, message: e.message }),
    }
}

/// Loads the text of a `.obj` file.
///
/// A face or line statement that lists more than three vertex references
/// is refused with `UnsupportedPrimitive` and the number of the first such
/// line. Otherwise one that writes a negative index in a word of
/// `LONG_WORD` bytes or more, too long for the reader, is refused with a
/// `Parse` error at the first such line. Otherwise the text goes to the
/// `.obj` reader, whose failure is a `Parse` error.
pub fn load_obj(text: &str) -> (r: Result<ObjSet, MeshError>)
    ensures
        first_oversized_face(text.spec_bytes()) matches Some(line) ==> r matches Err(
            MeshError::UnsupportedPrimitive { at_line: Some(l) },
        ) && l == line,
        first_oversized_face(text.spec_bytes()) is None ==> (first_long_negative_index(text.spec_bytes())
            matches Some(line) ==> r matches Err(MeshError::Parse { line: l, .. }) && l == line),
        first_oversized_face(text.spec_bytes()) is None && first_long_negative_index(text.spec_bytes())
            is None ==> (r is Ok <==> obj_accepts(text@)),
        first_oversized_face(text.spec_bytes()) is None && first_long_negative_index(text.spec_bytes())
            is None ==> (r matches Err(e) ==> e is Parse),
{
    let bytes = text.as_bytes();
    match find_oversized_face(bytes) {
        Some(line) => Err(MeshError::UnsupportedPrimitive { at_line: Some(line) }),
        None => match find_long_negative_index(bytes) {
            Some(line) => Err(
                MeshError::Parse { line, message: "negative index out of range".to_owned() },
            ),
            None => parse_obj(text),
        },
    }
}

} // verus!
