//! Command codec tests: exact wire bytes, round trips over every variant,
//! and rejection of malformed payloads.

use redra::proto::command::{decode_command, encode_command, CmdPack, Command, ConceptionCmd};
use redra::proto::designation::{DesignCmd, DesignCmdData, Spawn, SpawnData};
use redra::proto::formats::{FormatPack, FormatPackData, Image};
use redra::proto::shape::{Cube, Point, Segment, ShapePack, ShapePackData, Sphere};
use redra::proto::transform::{Rotation, Scale, Translation};
use redra::proto_decode::{auto_decode, decode_pack};

fn translation(x: f32, y: f32, z: f32) -> Translation {
    Translation {
        x: x.to_bits(),
        y: y.to_bits(),
        z: z.to_bits(),
    }
}

fn shape_cmd(data: ShapePackData) -> Command {
    Command {
        cmd_pack: Some(CmdPack::Designation(DesignCmd {
            cmd: Some(DesignCmdData::Spawn(Spawn {
                data: Some(SpawnData::ShapeData(ShapePack { data: Some(data) })),
            })),
        })),
    }
}

fn point_cmd(x: f32, y: f32, z: f32) -> Command {
    shape_cmd(ShapePackData::Point(Point {
        pos: Some(translation(x, y, z)),
    }))
}

fn round_trip(c: &Command) {
    let bytes = encode_command(c);
    assert_eq!(decode_command(&bytes), Some(c.clone()));
    assert_eq!(decode_pack(&bytes), Ok(c.clone()));
}

#[test]
fn point_command_exact_bytes() {
    let bytes = encode_command(&point_cmd(1.0, 2.0, 3.0));
    let expected: Vec<u8> = vec![
        0x12, 23, // designation
        0x0A, 21, // spawn
        0x0A, 19, // shape data
        0x0A, 17, // point
        0x0A, 15, // pos
        0x0D, 0x00, 0x00, 0x80, 0x3F, // x = 1.0
        0x15, 0x00, 0x00, 0x00, 0x40, // y = 2.0
        0x1D, 0x00, 0x00, 0x40, 0x40, // z = 3.0
    ];
    assert_eq!(bytes, expected);
}

#[test]
fn zero_coordinates_are_omitted() {
    let bytes = encode_command(&point_cmd(0.0, 0.0, 0.0));
    // the position message is present but empty: all scalars are default
    let expected: Vec<u8> = vec![0x12, 8, 0x0A, 6, 0x0A, 4, 0x0A, 2, 0x0A, 0];
    assert_eq!(bytes, expected);
}

#[test]
fn empty_command_is_empty_payload() {
    let c = Command { cmd_pack: None };
    assert_eq!(encode_command(&c), Vec::<u8>::new());
    assert_eq!(decode_pack(&[]), Ok(c));
}

#[test]
fn round_trip_point() {
    round_trip(&point_cmd(1.0, -2.5, 3.25));
    round_trip(&shape_cmd(ShapePackData::Point(Point { pos: None })));
}

#[test]
fn round_trip_segment() {
    round_trip(&shape_cmd(ShapePackData::Segment(Segment {
        start: Some(Point {
            pos: Some(translation(0.0, 1.0, 2.0)),
        }),
        end: Some(Point {
            pos: Some(translation(4.0, 5.0, 6.0)),
        }),
    })));
    round_trip(&shape_cmd(ShapePackData::Segment(Segment {
        start: None,
        end: None,
    })));
}

#[test]
fn round_trip_sphere() {
    round_trip(&shape_cmd(ShapePackData::Sphere(Sphere {
        pos: Some(translation(1.0, 1.0, 1.0)),
        radius: 0.5f32.to_bits(),
    })));
    // a zero radius is omitted on the wire and decodes back to zero
    round_trip(&shape_cmd(ShapePackData::Sphere(Sphere {
        pos: None,
        radius: 0,
    })));
}

#[test]
fn round_trip_cube() {
    round_trip(&shape_cmd(ShapePackData::Cube(Cube {
        translation: Some(translation(0.0, 0.0, 0.0)),
        rotation: Some(Rotation {
            rx: 0.1f32.to_bits(),
            ry: 0.2f32.to_bits(),
            rz: 0.3f32.to_bits(),
        }),
        scale: Some(Scale {
            sx: 2.0f32.to_bits(),
            sy: 2.0f32.to_bits(),
            sz: 2.0f32.to_bits(),
        }),
    })));
    round_trip(&shape_cmd(ShapePackData::Cube(Cube {
        translation: None,
        rotation: None,
        scale: None,
    })));
}

#[test]
fn round_trip_other_variants() {
    round_trip(&Command {
        cmd_pack: Some(CmdPack::Conception(ConceptionCmd {})),
    });
    round_trip(&Command {
        cmd_pack: Some(CmdPack::Transform(translation(7.0, 8.0, 9.0))),
    });
    round_trip(&Command {
        cmd_pack: Some(CmdPack::Designation(DesignCmd { cmd: None })),
    });
    round_trip(&Command {
        cmd_pack: Some(CmdPack::Designation(DesignCmd {
            cmd: Some(DesignCmdData::Spawn(Spawn { data: None })),
        })),
    });
    round_trip(&shape_cmd(ShapePackData::Point(Point { pos: None })));
}

#[test]
fn round_trip_format_spawn() {
    round_trip(&Command {
        cmd_pack: Some(CmdPack::Designation(DesignCmd {
            cmd: Some(DesignCmdData::Spawn(Spawn {
                data: Some(SpawnData::FormatData(FormatPack {
                    data: Some(FormatPackData::Image(Image {})),
                })),
            })),
        })),
    });
    round_trip(&Command {
        cmd_pack: Some(CmdPack::Designation(DesignCmd {
            cmd: Some(DesignCmdData::Spawn(Spawn {
                data: Some(SpawnData::FormatData(FormatPack { data: None })),
            })),
        })),
    });
}

#[test]
fn decode_rejects_garbage() {
    assert!(decode_pack(&[0xFF, 0x01, 0x02]).is_err());
    assert_eq!(
        decode_pack(&[0xFF]).unwrap_err(),
        "decode error".to_string()
    );
}

#[test]
fn decode_rejects_trailing_bytes() {
    let mut bytes = encode_command(&point_cmd(1.0, 2.0, 3.0));
    bytes.push(0x00);
    assert!(decode_pack(&bytes).is_err());
}

#[test]
fn decode_rejects_truncated_field() {
    let bytes = encode_command(&point_cmd(1.0, 2.0, 3.0));
    assert!(decode_pack(&bytes[..bytes.len() - 1]).is_err());
}

fn nested(tag: u8, body: &[u8]) -> Vec<u8> {
    let mut v = vec![tag, body.len() as u8];
    v.extend_from_slice(body);
    v
}

#[test]
fn decode_rejects_out_of_order_fields() {
    // a position body with y before x is no strict encoding
    let body: Vec<u8> = vec![
        0x15, 0x00, 0x00, 0x00, 0x40, // y = 2.0
        0x0D, 0x00, 0x00, 0x80, 0x3F, // x = 1.0
    ];
    let point = nested(0x0A, &body);
    let shape = nested(0x0A, &point);
    let spawn = nested(0x0A, &shape);
    let design = nested(0x0A, &spawn);
    let bytes = nested(0x12, &design);
    assert!(decode_pack(&bytes).is_err());
}

#[test]
fn conception_body_is_opaque() {
    // any conception body is accepted; its content is not retained
    let bytes: Vec<u8> = vec![0x0A, 3, 0xDE, 0xAD, 0x00];
    assert_eq!(
        decode_pack(&bytes),
        Ok(Command {
            cmd_pack: Some(CmdPack::Conception(ConceptionCmd {}))
        })
    );
}

#[test]
fn auto_decode_yields_one_command() {
    let c = point_cmd(1.0, 2.0, 3.0);
    let bytes = encode_command(&c);
    assert_eq!(auto_decode(&bytes), Ok(vec![c]));
    assert!(auto_decode(&[0xFF]).is_err());
}
