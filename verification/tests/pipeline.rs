//! End-to-end pipeline tests: bytes in, domain commands out, and the
//! listener's identifier bookkeeping.

use redra::forwarder::{forward_payload, RDForwarder};
use redra::frame::{drain_frames, frame_bytes};
use redra::interface::position_rdr;
use redra::linker::RDLinker;
use redra::listener::{ListenerAction, ListenerEvent, RDListener};
use redra::pack::RDPack;
use redra::parser::process_pack;
use redra::proto::command::{encode_command, CmdPack, Command, ConceptionCmd};
use redra::proto::declare::{enc_trailer, Trailer};
use redra::proto::designation::{DesignCmd, DesignCmdData, Spawn, SpawnData};
use redra::proto::formats::{FormatPack, FormatPackData, Image};
use redra::proto::shape::{Cube, Point, Segment, ShapePack, ShapePackData, Sphere};
use redra::proto::transform::{Scale, Translation};

fn translation(x: f32, y: f32, z: f32) -> Translation {
    Translation {
        x: x.to_bits(),
        y: y.to_bits(),
        z: z.to_bits(),
    }
}

fn shape_cmd(data: ShapePackData) -> Command {
    Command {
        cmd_pack: Some(CmdPack::Designation(DesignCmd {
            cmd: Some(DesignCmdData::Spawn(Spawn {
                data: Some(SpawnData::ShapeData(ShapePack { data: Some(data) })),
            })),
        })),
    }
}

#[test]
fn one_point_frame_spawns_one_shape() {
    // a client sends one frame encoding a point at (1.0, 2.0, 3.0)
    let cmd = shape_cmd(ShapePackData::Point(Point {
        pos: Some(translation(1.0, 2.0, 3.0)),
    }));
    let mut stream = frame_bytes(&encode_command(&cmd));

    let linker = RDLinker::new(0);
    let payload = linker.extract_complete_packet(&mut stream).unwrap();
    assert!(stream.is_empty());

    let out = forward_payload(&payload).unwrap().unwrap();
    match out {
        RDPack::SpawnShape(sp) => {
            assert_eq!(sp.material, "blue".to_string());
            match sp.shape {
                ShapePackData::Point(p) => {
                    let pos = p.pos.unwrap();
                    assert_eq!(f32::from_bits(pos.x), 1.0);
                    assert_eq!(f32::from_bits(pos.y), 2.0);
                    assert_eq!(f32::from_bits(pos.z), 3.0);
                }
                other => panic!("expected a point, got {:?}", other),
            }
        }
        other => panic!("expected a spawn, got {:?}", other),
    }
}

#[test]
fn two_frames_in_one_write_keep_order() {
    // cube first, sphere second, in a single write
    let cube = shape_cmd(ShapePackData::Cube(Cube {
        translation: Some(translation(0.0, 0.0, 0.0)),
        rotation: None,
        scale: Some(Scale {
            sx: 2.0f32.to_bits(),
            sy: 2.0f32.to_bits(),
            sz: 2.0f32.to_bits(),
        }),
    }));
    let sphere = shape_cmd(ShapePackData::Sphere(Sphere {
        pos: Some(translation(1.0, 1.0, 1.0)),
        radius: 0.5f32.to_bits(),
    }));
    let mut stream = frame_bytes(&encode_command(&cube));
    stream.extend_from_slice(&frame_bytes(&encode_command(&sphere)));

    let payloads = drain_frames(&mut stream);
    assert_eq!(payloads.len(), 2);
    assert!(stream.is_empty());

    let first = forward_payload(&payloads[0]).unwrap().unwrap();
    let second = forward_payload(&payloads[1]).unwrap().unwrap();
    match first {
        RDPack::SpawnShape(sp) => {
            assert!(matches!(sp.shape, ShapePackData::Cube(_)));
            assert_eq!(sp.material, "default".to_string());
        }
        other => panic!("expected the cube first, got {:?}", other),
    }
    match second {
        RDPack::SpawnShape(sp) => {
            assert!(matches!(sp.shape, ShapePackData::Sphere(_)));
            assert_eq!(sp.material, "default".to_string());
        }
        other => panic!("expected the sphere second, got {:?}", other),
    }
}

#[test]
fn truncated_frame_spawns_nothing_and_id_is_recycled() {
    // the frame declares one hundred payload bytes and delivers ten
    let t = Trailer { me: 4, next: 100 };
    let mut stream: Vec<u8> = Vec::new();
    enc_trailer(&mut stream, &t);
    stream.extend_from_slice(&[0u8; 10]);

    let mut listener = RDListener::new("0.0.0.0:8080".to_string());
    let action = listener.handle_event(ListenerEvent::NewConnection);
    let id = match action {
        ListenerAction::SpawnLinker(id) => id,
        other => panic!("expected a linker to spawn, got {:?}", other),
    };

    let linker = RDLinker::new(id);
    assert_eq!(linker.extract_complete_packet(&mut stream), None);
    // the connection closes; the incomplete remainder is discarded and
    // the linker reports its id
    assert_eq!(
        listener.handle_event(ListenerEvent::LinkerReleased(id)),
        ListenerAction::Continue
    );
    // the id is available again for the next connection
    match listener.handle_event(ListenerEvent::NewConnection) {
        ListenerAction::SpawnLinker(next) => assert_eq!(next, id),
        other => panic!("expected a linker to spawn, got {:?}", other),
    }
}

#[test]
fn released_id_comes_back_before_fresh_ones() {
    let mut listener = RDListener::new("addr".to_string());
    let a = match listener.handle_event(ListenerEvent::NewConnection) {
        ListenerAction::SpawnLinker(id) => id,
        _ => unreachable!(),
    };
    let b = match listener.handle_event(ListenerEvent::NewConnection) {
        ListenerAction::SpawnLinker(id) => id,
        _ => unreachable!(),
    };
    let c = match listener.handle_event(ListenerEvent::NewConnection) {
        ListenerAction::SpawnLinker(id) => id,
        _ => unreachable!(),
    };
    assert_eq!((a, b, c), (0, 1, 2));
    listener.handle_event(ListenerEvent::LinkerReleased(b));
    // the released id is reused before the space grows to three
    match listener.handle_event(ListenerEvent::NewConnection) {
        ListenerAction::SpawnLinker(id) => assert_eq!(id, b),
        _ => unreachable!(),
    }
    match listener.handle_event(ListenerEvent::NewConnection) {
        ListenerAction::SpawnLinker(id) => assert_eq!(id, 3),
        _ => unreachable!(),
    }
}

#[test]
fn stale_release_is_ignored() {
    let mut listener = RDListener::new("addr".to_string());
    // releasing an id that is not live must not disturb the listener
    assert_eq!(
        listener.handle_event(ListenerEvent::LinkerReleased(5)),
        ListenerAction::Continue
    );
    assert_eq!(
        listener.handle_event(ListenerEvent::ForwarderReleased(0)),
        ListenerAction::Continue
    );
    match listener.handle_event(ListenerEvent::NewConnection) {
        ListenerAction::SpawnLinker(id) => assert_eq!(id, 0),
        _ => unreachable!(),
    }
}

#[test]
fn init_seeds_three_distinct_forwarders() {
    let mut listener = RDListener::new("addr".to_string());
    let ids = listener.init();
    assert_eq!(ids, vec![0, 1, 2]);
}

#[test]
fn expansion_request_creates_a_forwarder() {
    let mut listener = RDListener::new("addr".to_string());
    let ids = listener.init();
    match listener.handle_event(ListenerEvent::ExpandRequest(42)) {
        ListenerAction::SpawnForwarder(id) => {
            assert!(!ids.contains(&id));
            assert_eq!(id, 3);
        }
        other => panic!("expected a forwarder to spawn, got {:?}", other),
    }
    // when a forwarder retires, its id is reused on the next expansion
    listener.handle_event(ListenerEvent::ForwarderReleased(1));
    match listener.handle_event(ListenerEvent::ExpandRequest(42)) {
        ListenerAction::SpawnForwarder(id) => assert_eq!(id, 1),
        other => panic!("expected a forwarder to spawn, got {:?}", other),
    }
}

#[test]
fn process_pack_maps_each_shape_to_its_material() {
    let cases: Vec<(ShapePackData, &str)> = vec![
        (
            ShapePackData::Point(Point { pos: None }),
            "blue",
        ),
        (
            ShapePackData::Segment(Segment {
                start: None,
                end: None,
            }),
            "white",
        ),
        (
            ShapePackData::Sphere(Sphere {
                pos: None,
                radius: 0,
            }),
            "default",
        ),
        (
            ShapePackData::Cube(Cube {
                translation: None,
                rotation: None,
                scale: None,
            }),
            "default",
        ),
    ];
    for (shape, material) in cases {
        match process_pack(shape_cmd(shape)) {
            Some(RDPack::SpawnShape(sp)) => assert_eq!(sp.material, material.to_string()),
            other => panic!("expected a spawn, got {:?}", other),
        }
    }
}

#[test]
fn process_pack_ignores_non_spawn_commands() {
    assert_eq!(process_pack(Command { cmd_pack: None }), None);
    assert_eq!(
        process_pack(Command {
            cmd_pack: Some(CmdPack::Conception(ConceptionCmd {}))
        }),
        None
    );
    assert_eq!(
        process_pack(Command {
            cmd_pack: Some(CmdPack::Transform(translation(1.0, 2.0, 3.0)))
        }),
        None
    );
    assert_eq!(
        process_pack(Command {
            cmd_pack: Some(CmdPack::Designation(DesignCmd { cmd: None }))
        }),
        None
    );
    // a spawn without shape data, and a format spawn, produce nothing
    assert_eq!(
        process_pack(Command {
            cmd_pack: Some(CmdPack::Designation(DesignCmd {
                cmd: Some(DesignCmdData::Spawn(Spawn { data: None }))
            }))
        }),
        None
    );
    assert_eq!(
        process_pack(Command {
            cmd_pack: Some(CmdPack::Designation(DesignCmd {
                cmd: Some(DesignCmdData::Spawn(Spawn {
                    data: Some(SpawnData::FormatData(FormatPack {
                        data: Some(FormatPackData::Image(Image {}))
                    }))
                }))
            }))
        }),
        None
    );
    assert_eq!(
        process_pack(shape_cmd_without_shape()),
        None
    );
}

fn shape_cmd_without_shape() -> Command {
    Command {
        cmd_pack: Some(CmdPack::Designation(DesignCmd {
            cmd: Some(DesignCmdData::Spawn(Spawn {
                data: Some(SpawnData::ShapeData(ShapePack { data: None })),
            })),
        })),
    }
}

#[test]
fn five_streams_of_a_thousand_frames_each() {
    // five connections, a thousand frames each, bytes arriving in small
    // chunks: every command comes out, in per-connection order
    let streams: usize = 5;
    let frames_per_stream: usize = 1000;
    let chunk: usize = 7;
    for s in 0..streams {
        let mut wire: Vec<u8> = Vec::new();
        for i in 0..frames_per_stream {
            let x = (s * frames_per_stream + i) as f32;
            let cmd = shape_cmd(ShapePackData::Point(Point {
                pos: Some(translation(x, 0.0, 0.0)),
            }));
            wire.extend_from_slice(&frame_bytes(&encode_command(&cmd)));
        }
        let mut accum: Vec<u8> = Vec::new();
        let mut seen: usize = 0;
        let mut offset: usize = 0;
        while offset < wire.len() {
            let end = (offset + chunk).min(wire.len());
            accum.extend_from_slice(&wire[offset..end]);
            offset = end;
            for payload in drain_frames(&mut accum) {
                let out = forward_payload(&payload).unwrap().unwrap();
                match out {
                    RDPack::SpawnShape(sp) => match sp.shape {
                        ShapePackData::Point(p) => {
                            let expected = (s * frames_per_stream + seen) as f32;
                            assert_eq!(f32::from_bits(p.pos.unwrap().x), expected);
                        }
                        other => panic!("expected a point, got {:?}", other),
                    },
                    other => panic!("expected a spawn, got {:?}", other),
                }
                seen += 1;
            }
        }
        assert_eq!(seen, frames_per_stream);
        assert!(accum.is_empty());
    }
}

#[test]
fn forward_payload_reports_bad_frames() {
    assert_eq!(
        forward_payload(&[0xFF, 0x00]),
        Err("decode error".to_string())
    );
    // a decodable command with nothing to spawn forwards nothing
    assert_eq!(forward_payload(&[]), Ok(None));
}

#[test]
fn forwarder_carries_its_id() {
    let f = RDForwarder::new(17);
    assert_eq!(f.get_id(), 17);
}

#[test]
fn position_carries_over() {
    let t = translation(1.5, -2.5, 0.0);
    let p = position_rdr(&t);
    assert_eq!(f32::from_bits(p.x), 1.5);
    assert_eq!(f32::from_bits(p.y), -2.5);
    assert_eq!(f32::from_bits(p.z), 0.0);
}
