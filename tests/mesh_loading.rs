use raymarcher::faces::{
    find_breaking_line, find_long_negative_index, find_oversized_face, has_long_negative_index,
    is_oversized_face, LineRule,
};
use raymarcher::mesh::{
    load_obj, triangulate, Corner, MeshError, NormalSource, Primitive, RawObject, Triangle,
    VertexRef,
};
use wavefront_obj::obj;

fn vref(position: usize, normal: Option<usize>) -> VertexRef {
    VertexRef { position, texture: None, normal }
}

fn to_ref(i: obj::VTNIndex) -> VertexRef {
    VertexRef { position: i.0, texture: i.1, normal: i.2 }
}

fn raw_objects(set: &obj::ObjSet) -> Vec<RawObject> {
    let mut out = Vec::new();
    for o in set.objects.iter() {
        let mut faces = Vec::new();
        for g in o.geometry.iter() {
            for s in g.shapes.iter() {
                faces.push(match s.primitive {
                    obj::Primitive::Point(a) => Primitive::Point(to_ref(a)),
                    obj::Primitive::Line(a, b) => Primitive::Line(to_ref(a), to_ref(b)),
                    obj::Primitive::Triangle(a, b, c) => {
                        Primitive::Triangle(to_ref(a), to_ref(b), to_ref(c))
                    }
                });
            }
        }
        out.push(RawObject {
            name: o.name.clone(),
            position_count: o.vertices.len(),
            normal_count: o.normals.len(),
            faces,
        });
    }
    out
}

#[test]
fn explicit_normal_indices_are_used_verbatim() {
    let face = Primitive::Triangle(vref(0, Some(2)), vref(1, Some(0)), vref(2, Some(1)));
    let t = triangulate(&face, 3, 3).unwrap();
    assert_eq!(t.a, Corner { position: 0, normal: NormalSource::Stored(2) });
    assert_eq!(t.b, Corner { position: 1, normal: NormalSource::Stored(0) });
    assert_eq!(t.c, Corner { position: 2, normal: NormalSource::Stored(1) });
}

#[test]
fn missing_normals_share_one_face_normal_in_original_order() {
    let face = Primitive::Triangle(vref(4, None), vref(1, None), vref(3, None));
    let t = triangulate(&face, 5, 0).unwrap();
    let n = NormalSource::Synthesized(4, 1, 3);
    assert_eq!(
        t,
        Triangle {
            a: Corner { position: 4, normal: n },
            b: Corner { position: 1, normal: n },
            c: Corner { position: 3, normal: n },
        }
    );
}

#[test]
fn mixed_corners_resolve_their_normals_one_by_one() {
    let face = Primitive::Triangle(vref(0, None), vref(1, Some(0)), vref(2, None));
    let t = triangulate(&face, 3, 1).unwrap();
    assert_eq!(t.a.normal, NormalSource::Synthesized(0, 1, 2));
    assert_eq!(t.b.normal, NormalSource::Stored(0));
    assert_eq!(t.c.normal, NormalSource::Synthesized(0, 1, 2));
}

#[test]
fn points_and_lines_are_unsupported() {
    let point = Primitive::Point(vref(0, None));
    let line = Primitive::Line(vref(0, None), vref(1, None));
    assert_eq!(triangulate(&point, 2, 0), Err(MeshError::UnsupportedPrimitive { at_line: None }));
    assert_eq!(triangulate(&line, 2, 0), Err(MeshError::UnsupportedPrimitive { at_line: None }));
}

#[test]
fn dangling_indices_are_refused() {
    let far_position = Primitive::Triangle(vref(0, None), vref(1, None), vref(3, None));
    assert_eq!(triangulate(&far_position, 3, 0), Err(MeshError::IndexOutOfRange));
    let far_normal = Primitive::Triangle(vref(0, Some(1)), vref(1, None), vref(2, None));
    assert_eq!(triangulate(&far_normal, 3, 1), Err(MeshError::IndexOutOfRange));
}

#[test]
fn vertex_stream_holds_three_vertices_per_face() {
    let object = RawObject {
        name: String::from("pair"),
        position_count: 4,
        normal_count: 1,
        faces: vec![
            Primitive::Triangle(vref(0, None), vref(1, None), vref(2, None)),
            Primitive::Triangle(vref(2, Some(0)), vref(3, Some(0)), vref(0, Some(0))),
        ],
    };
    let stream = object.vertex_stream().unwrap();
    assert_eq!(stream.len(), 6);
    assert_eq!(stream[0], Corner { position: 0, normal: NormalSource::Synthesized(0, 1, 2) });
    assert_eq!(stream[2], Corner { position: 2, normal: NormalSource::Synthesized(0, 1, 2) });
    assert_eq!(stream[4], Corner { position: 3, normal: NormalSource::Stored(0) });
    let empty = RawObject { name: String::new(), position_count: 0, normal_count: 0, faces: vec![] };
    assert_eq!(empty.vertex_stream(), Ok(vec![]));
}

#[test]
fn vertex_stream_reports_the_first_refused_face() {
    let object = RawObject {
        name: String::from("broken"),
        position_count: 3,
        normal_count: 0,
        faces: vec![
            Primitive::Triangle(vref(0, None), vref(1, None), vref(2, None)),
            Primitive::Line(vref(0, None), vref(1, None)),
            Primitive::Triangle(vref(0, None), vref(1, None), vref(9, None)),
        ],
    };
    assert_eq!(object.vertex_stream(), Err(MeshError::UnsupportedPrimitive { at_line: None }));
}

#[test]
fn quad_face_line_is_found() {
    assert_eq!(find_oversized_face(b"f 1 2 3 4"), Some(1));
    assert_eq!(find_oversized_face(b"v 0 0 0\n\n  f\t1 2 3 4 5\r\nf 1 2 3 4\n"), Some(3));
    assert!(is_oversized_face(b"f 1/1/1 2/2/2 3/3/3 4/4/4", 0, 25));
}

#[test]
fn triangle_comment_and_other_lines_pass() {
    assert_eq!(find_oversized_face(b""), None);
    assert_eq!(find_oversized_face(b"f 1 2 3\n"), None);
    assert_eq!(find_oversized_face(b"f 1 2 3 # 4 5\n"), None);
    assert_eq!(find_oversized_face(b"# f 1 2 3 4\n"), None);
    assert_eq!(find_oversized_face(b"fo 1 2 3 4\nvn 1 2 3 4\n"), None);
    assert!(!is_oversized_face(b"f 1 2 3 4", 0, 7));
}

#[test]
fn loading_a_quad_fails_with_unsupported_primitive() {
    let text = "v 0 0 0\nv 1 0 0\nv 1 1 0\nv 0 1 0\nf 1 2 3 4\n";
    assert_eq!(load_obj(text).err(), Some(MeshError::UnsupportedPrimitive { at_line: Some(5) }));
}

#[test]
fn loading_malformed_text_is_a_parse_error() {
    let text = "v 0 0 0\nv 1 zero 0\n";
    match load_obj(text) {
        Err(MeshError::Parse { line, message }) => {
            assert_eq!(line, 2);
            assert!(!message.is_empty());
        }
        other => panic!("unexpected {:?}", other.map(|s| s.objects.len())),
    }
}

#[test]
fn one_triangle_without_normals_gets_one_shared_face_normal() {
    let text = "v 0 0 0\nv 1 0 0\nv 0 1 0\nf 1 2 3\n";
    let set = load_obj(text).unwrap();
    assert_eq!(set.objects.len(), 1);
    assert_eq!(set.objects[0].vertices.len(), 3);
    let objects = raw_objects(&set);
    let stream = objects[0].vertex_stream().unwrap();
    // The reader starts a face at its last corner: the same cycle, so the
    // same winding and the same face normal.
    let n = NormalSource::Synthesized(2, 0, 1);
    assert_eq!(
        stream,
        vec![
            Corner { position: 2, normal: n },
            Corner { position: 0, normal: n },
            Corner { position: 1, normal: n },
        ]
    );
}

#[test]
fn one_triangle_with_normals_keeps_them() {
    let text = "v 0 0 0\nv 1 0 0\nv 0 1 0\nvn 0 0 1\nf 1//1 2//1 3//1\n";
    let set = load_obj(text).unwrap();
    let objects = raw_objects(&set);
    assert_eq!(objects[0].normal_count, 1);
    let stream = objects[0].vertex_stream().unwrap();
    assert_eq!(stream.len(), 3);
    for c in stream.iter() {
        assert_eq!(c.normal, NormalSource::Stored(0));
    }
}

#[test]
fn line_statements_with_four_references_are_found() {
    assert_eq!(find_oversized_face(b"v 0 0 0\nl 1 2 3 4\n"), Some(2));
    assert_eq!(find_oversized_face(b"l 1 2\nl 1 2 3\n"), None);
    assert_eq!(
        find_breaking_line(LineRule::TooManyReferences, b"f 1 2 3\nl 4 3 2 1\n"),
        Some(2)
    );
}

#[test]
fn long_negative_indices_are_found() {
    assert_eq!(find_long_negative_index(b"v -1 0 0\nf -3 -2 -1\n"), None);
    assert_eq!(find_long_negative_index(b"f 1 2 -999999999999999999\n"), None);
    assert_eq!(find_long_negative_index(b"v -1 0 0\nf 1 2 -9223372036854775807\n"), Some(2));
    assert_eq!(
        find_long_negative_index(b"f 1 2 3 # -9223372036854775808\nl\t1/-1000000000000000000 2\n"),
        Some(2)
    );
    assert_eq!(find_long_negative_index(b"v 0 -9223372036854775808 0\n"), None);
    assert!(has_long_negative_index(b"f -9223372036854775808", 0, 22));
    assert!(!has_long_negative_index(b"f -9223372036854775808", 0, 21));
    assert!(!has_long_negative_index(b"f 12345678901234567890 -1", 0, 25));
}

#[test]
fn short_relative_indices_go_to_the_reader() {
    // The text checks let `f -3 -2 -1` through; the reader itself turns a
    // negative index `x` into `max - x`, which is never below `max`, and so
    // answers with its own range error.
    let text = "v 0 0 0\nv 1 0 0\nv 0 1 0\nf -3 -2 -1\n";
    assert_eq!(find_long_negative_index(text.as_bytes()), None);
    assert_eq!(find_oversized_face(text.as_bytes()), None);
    match load_obj(text) {
        Err(MeshError::Parse { line, message }) => {
            assert_eq!(line, 4);
            assert!(message.contains("-3"));
        }
        other => panic!("unexpected {:?}", other.map(|s| s.objects.len())),
    }
}

#[test]
fn loading_a_negative_index_beyond_the_reader_is_a_parse_error() {
    match load_obj("f -9223372036854775808") {
        Err(MeshError::Parse { line, .. }) => assert_eq!(line, 1),
        other => panic!("unexpected {:?}", other.map(|s| s.objects.len())),
    }
    match load_obj("v 0 0 0\nf -9223372036854775807 1 1\n") {
        Err(MeshError::Parse { line, .. }) => assert_eq!(line, 2),
        other => panic!("unexpected {:?}", other.map(|s| s.objects.len())),
    }
}

#[test]
fn loading_a_long_line_statement_fails_with_unsupported_primitive() {
    let text = "v 0 0 0\nv 1 0 0\nv 1 1 0\nv 0 1 0\nl 1 2 3 4\n";
    assert_eq!(load_obj(text).err(), Some(MeshError::UnsupportedPrimitive { at_line: Some(5) }));
}
