//! Behavioural tests of the engine core: resource creation, updates, and
//! the command sequences emitted by frame submission.

use idek::DrawCmd;
use idek::EngineError;
use idek::Settings;
use idek::Transform;
use idek::Vertex;
use idek::engine::Engine;
use idek::ops::Op;
use idek::transform_identity;

const FRAMES: usize = 2;

fn test_engine() -> Engine {
    let settings: Settings = Settings::default();
    Engine::new(&settings, FRAMES).unwrap()
}

fn small_engine(max_transforms: usize) -> Engine {
    let settings: Settings = Settings::default().max_transforms(max_transforms);
    Engine::new(&settings, FRAMES).unwrap()
}

fn vert(x: f32, y: f32, z: f32) -> Vertex {
    Vertex {
        pos: [x.to_bits(), y.to_bits(), z.to_bits()],
        color: [1f32.to_bits(), 1f32.to_bits(), 1f32.to_bits()],
    }
}

fn tri() -> Vec<Vertex> {
    vec![vert(0.0, 0.0, 0.0), vert(1.0, 0.0, 0.0), vert(0.0, 1.0, 0.0)]
}

fn translation(x: f32) -> Transform {
    let mut t = transform_identity();
    t[3] = x.to_bits();
    t
}

#[test]
fn settings_default_and_builders() {
    let s: Settings = Settings::default();
    assert_eq!(s.msaa_samples, 4);
    assert!(!s.vr);
    assert_eq!(s.name, "Idek");
    assert_eq!(s.max_transforms, 10000);

    let s: Settings = Settings::default()
        .vr(true)
        .name("Triangle".to_owned())
        .max_transforms(64);
    assert!(s.vr);
    assert_eq!(s.name, "Triangle");
    assert_eq!(s.max_transforms, 64);
}

#[test]
fn msaa_must_be_power_of_two_up_to_16() {
    for ok in [1u8, 2, 4, 8, 16] {
        let mut settings: Settings = Settings::default();
        settings.msaa_samples = ok;
        assert!(Engine::new(&settings, FRAMES).is_ok());
    }
    for bad in [0u8, 3, 5, 6, 7, 12, 32, 255] {
        let mut settings: Settings = Settings::default();
        settings.msaa_samples = bad;
        assert!(matches!(
            Engine::new(&settings, FRAMES),
            Err(EngineError::InvalidMsaa)
        ));
    }
}

#[test]
fn handles_are_pairwise_distinct() {
    let mut e = test_engine();
    let mut vhandles = Vec::new();
    let mut ihandles = Vec::new();
    for i in 0..8u32 {
        vhandles.push(e.vertices(&tri(), false).unwrap());
        ihandles.push(e.indices(&[0, 1, i], false).unwrap());
    }
    for a in 0..vhandles.len() {
        for b in 0..vhandles.len() {
            if a != b {
                assert_ne!(vhandles[a], vhandles[b]);
                assert_ne!(ihandles[a], ihandles[b]);
            }
        }
    }
}

#[test]
fn foreign_handle_is_rejected() {
    let mut donor = test_engine();
    let foreign = donor.vertices(&tri(), true).unwrap();

    // A fresh engine has never handed out this handle; its lookup must fail
    // with a reported error, not silent misuse.
    let mut e = test_engine();
    assert!(matches!(
        e.update_vertices(foreign, &tri()),
        Err(EngineError::UnknownHandle)
    ));
    // A draw command naming it fails the whole frame.
    let r = e.frame(vec![DrawCmd::new(foreign)]);
    assert!(matches!(r, Err(EngineError::UnknownHandle)));
}

#[test]
fn static_write_always_rejected() {
    let mut e = test_engine();
    let h = e.vertices(&tri(), false).unwrap();
    assert!(matches!(
        e.update_vertices(h, &tri()),
        Err(EngineError::StaticWrite)
    ));
    // Advance through every frame slot: the rejection does not depend on it.
    for _ in 0..FRAMES {
        e.frame(vec![]).unwrap();
        assert!(matches!(
            e.update_vertices(h, &tri()),
            Err(EngineError::StaticWrite)
        ));
    }
}

#[test]
fn static_index_write_rejected() {
    let mut e = test_engine();
    let h = e.indices(&[0, 1, 2], false).unwrap();
    assert!(matches!(
        e.update_indices(h, &[2, 1, 0]),
        Err(EngineError::StaticWrite)
    ));
}

#[test]
fn update_with_changed_length_rejected() {
    let mut e = test_engine();
    let h = e.vertices(&tri(), true).unwrap();
    let two = vec![vert(0.0, 0.0, 0.0), vert(1.0, 1.0, 1.0)];
    assert!(matches!(
        e.update_vertices(h, &two),
        Err(EngineError::SizeMismatch)
    ));
    // The right length is still accepted afterwards.
    assert!(e.update_vertices(h, &tri()).is_ok());
}

/// Upload freshness: the copy emitted for a handle carries exactly the bytes
/// most recently written, for the initial upload and for later updates.
#[test]
fn upload_freshness_across_frames() {
    let mut e = test_engine();
    let data1 = tri();
    let h = e.vertices(&data1, true).unwrap();

    let out = e.frame(vec![DrawCmd::new(h)]).unwrap();
    assert_eq!(
        out.ops[0],
        Op::CopyVertex { handle: h, data: data1.clone() }
    );

    let data2 = vec![vert(5.0, 5.0, 5.0), vert(6.0, 6.0, 6.0), vert(7.0, 7.0, 7.0)];
    e.update_vertices(h, &data2).unwrap();
    let out = e.frame(vec![DrawCmd::new(h)]).unwrap();
    assert_eq!(
        out.ops[0],
        Op::CopyVertex { handle: h, data: data2.clone() }
    );

    let data3 = vec![vert(8.0, 8.0, 8.0), vert(9.0, 9.0, 9.0), vert(1.0, 2.0, 3.0)];
    e.update_vertices(h, &data3).unwrap();
    // Two updates in one frame: every emitted copy carries the last write.
    let data4 = vec![vert(4.0, 4.0, 4.0), vert(3.0, 3.0, 3.0), vert(2.0, 2.0, 2.0)];
    e.update_vertices(h, &data4).unwrap();
    let out = e.frame(vec![DrawCmd::new(h)]).unwrap();
    let copies: Vec<&Op> = out
        .ops
        .iter()
        .filter(|op| matches!(op, Op::CopyVertex { .. }))
        .collect();
    assert_eq!(copies.len(), 2);
    for op in copies {
        assert_eq!(*op, Op::CopyVertex { handle: h, data: data4.clone() });
    }
}

/// Transform indexing: commands with transforms get slots 1, 2, ... in
/// order; commands without draw with slot 0; the table holds the identity
/// and then exactly the supplied transforms.
#[test]
fn transform_indexing() {
    let mut e = test_engine();
    let h = e.vertices(&tri(), false).unwrap();
    let ta = translation(1.0);
    let tb = translation(2.0);
    let cmds = vec![
        DrawCmd::new(h).transform(ta),
        DrawCmd::new(h),
        DrawCmd::new(h).transform(tb),
    ];
    let out = e.frame(cmds).unwrap();

    assert_eq!(out.transforms.len(), 3);
    assert_eq!(out.transforms[0], transform_identity());
    assert_eq!(out.transforms[1], ta);
    assert_eq!(out.transforms[2], tb);

    let pushes: Vec<u32> = out
        .ops
        .iter()
        .filter_map(|op| match op {
            Op::PushTransformIndex { index } => Some(*index),
            _ => None,
        })
        .collect();
    assert_eq!(pushes, vec![1, 0, 2]);
}

/// Order preservation: the bind/draw blocks come out in exactly the order of
/// the submitted command list, with no reordering or batching.
#[test]
fn order_preservation() {
    let mut e = test_engine();
    let h1 = e.vertices(&tri(), false).unwrap();
    let h2 = e.vertices(&tri(), false).unwrap();
    let ib = e.indices(&[0, 1, 2], false).unwrap();
    let magic = [0x03u8, 0x02, 0x23, 0x07];
    let sh = e
        .shader(&magic, &magic, idek::Primitive::Triangles, idek::Blend::Opaque)
        .unwrap();

    let cmds = vec![
        DrawCmd::new(h2),
        DrawCmd::new(h1).indices(ib).shader(sh),
        DrawCmd::new(h1),
    ];
    let out = e.frame(cmds).unwrap();

    let triples: Vec<_> = out
        .ops
        .iter()
        .filter_map(|op| match op {
            Op::BindPipeline { shader } => Some(*shader),
            _ => None,
        })
        .collect();
    assert_eq!(triples, vec![e.default_shader_key, sh, e.default_shader_key]);

    let vbinds: Vec<_> = out
        .ops
        .iter()
        .filter_map(|op| match op {
            Op::BindVertexBuffer { handle } => Some(*handle),
            _ => None,
        })
        .collect();
    assert_eq!(vbinds, vec![h2, h1, h1]);

    let ibinds: Vec<_> = out
        .ops
        .iter()
        .filter_map(|op| match op {
            Op::BindIndexBuffer { handle } => Some(*handle),
            _ => None,
        })
        .collect();
    assert_eq!(ibinds, vec![ib]);
}

/// Capacity enforcement: one transform past the table's capacity fails the
/// frame with a reported error and nothing is emitted for it.
#[test]
fn transform_capacity_enforced() {
    let max: usize = 4;
    let mut e = small_engine(max);
    let h = e.vertices(&tri(), false).unwrap();

    // max + 1 distinct transforms must be rejected.
    let mut cmds = Vec::new();
    for i in 0..(max + 1) {
        cmds.push(DrawCmd::new(h).transform(translation(i as f32)));
    }
    let r = e.frame(cmds);
    assert!(matches!(r, Err(EngineError::TooManyTransforms)));

    // The failed frame left the engine as it was: the queued initial upload
    // is still pending and a fitting frame succeeds.
    let mut cmds = Vec::new();
    for i in 0..(max - 1) {
        cmds.push(DrawCmd::new(h).transform(translation(i as f32)));
    }
    let out = e.frame(cmds).unwrap();
    assert_eq!(out.transforms.len(), max);
    assert!(matches!(out.ops[0], Op::CopyVertex { .. }));
}

/// Draw-count limiting: limit below the buffer length wins; limit above it
/// is capped to the length.
#[test]
fn draw_count_limiting() {
    let mut e = test_engine();
    let h = e.vertices(&tri(), false).unwrap();
    let ib = e.indices(&[0, 1, 2, 1, 2, 0], false).unwrap();

    let out = e
        .frame(vec![
            DrawCmd::new(h).indices(ib).limit(4),
            DrawCmd::new(h).indices(ib).limit(9),
            DrawCmd::new(h).indices(ib),
            DrawCmd::new(h).limit(2),
            DrawCmd::new(h).limit(7),
        ])
        .unwrap();

    let counts: Vec<(bool, u32)> = out
        .ops
        .iter()
        .filter_map(|op| match op {
            Op::Draw { count } => Some((false, *count)),
            Op::DrawIndexed { count } => Some((true, *count)),
            _ => None,
        })
        .collect();
    assert_eq!(
        counts,
        vec![(true, 4), (true, 6), (true, 6), (false, 2), (false, 3)]
    );
}

/// End-to-end: a 3-vertex static buffer drawn once with no options draws 3
/// vertices with the default pipeline and transform slot 0.
#[test]
fn end_to_end_simple_triangle() {
    let mut e = test_engine();
    let data = tri();
    let h = e.vertices(&data, false).unwrap();

    let out = e.frame(vec![DrawCmd::new(h)]).unwrap();
    assert_eq!(out.frame_slot, 0);
    assert_eq!(out.transforms, vec![transform_identity()]);
    assert_eq!(
        out.ops,
        vec![
            Op::CopyVertex { handle: h, data },
            Op::Barrier,
            Op::BindDescriptorSet { frame_slot: 0 },
            Op::BindPipeline { shader: e.default_shader_key },
            Op::PushTransformIndex { index: 0 },
            Op::BindVertexBuffer { handle: h },
            Op::Draw { count: 3 },
        ]
    );
}

#[test]
fn frame_slot_advances_round_robin() {
    let mut e = test_engine();
    assert_eq!(e.frame(vec![]).unwrap().frame_slot, 0);
    assert_eq!(e.frame(vec![]).unwrap().frame_slot, 1);
    assert_eq!(e.frame(vec![]).unwrap().frame_slot, 0);
    assert_eq!(e.frame(vec![]).unwrap().frame_slot, 1);
}

#[test]
fn camera_prefix_reaches_frame_output() {
    let mut e = test_engine();
    assert_eq!(e.frame(vec![]).unwrap().camera_prefix, transform_identity());
    let m = translation(3.5);
    e.set_camera_prefix(m);
    assert_eq!(e.frame(vec![]).unwrap().camera_prefix, m);
}

#[test]
fn index_upload_freshness() {
    let mut e = test_engine();
    let h = e.indices(&[0, 1, 2], true).unwrap();
    let out = e.frame(vec![]).unwrap();
    assert_eq!(out.ops[0], Op::CopyIndex { handle: h, data: vec![0, 1, 2] });
    e.update_indices(h, &[2, 1, 0]).unwrap();
    let out = e.frame(vec![]).unwrap();
    assert_eq!(out.ops[0], Op::CopyIndex { handle: h, data: vec![2, 1, 0] });
}

#[test]
fn screen_size_follows_resize() {
    let mut e = test_engine();
    assert_eq!(e.screen_size(), (0, 0));
    e.swapchain_resize(1280, 720);
    assert_eq!(e.screen_size(), (1280, 720));
    e.swapchain_resize(640, 480);
    assert_eq!(e.screen_size(), (640, 480));
}

#[test]
fn queue_drains_once_per_frame() {
    let mut e = test_engine();
    let h = e.vertices(&tri(), false).unwrap();
    let out = e.frame(vec![]).unwrap();
    assert!(matches!(out.ops[0], Op::CopyVertex { .. }));
    // The next frame has nothing left to upload.
    let out = e.frame(vec![DrawCmd::new(h)]).unwrap();
    assert!(matches!(out.ops[0], Op::Barrier));
}
