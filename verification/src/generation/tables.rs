//! The cube's fixed geometry and the two 256-entry marching-cubes tables.
//!
//! A cube's eight corners are numbered around the bottom face and then
//! around the top face; its twelve edges are numbered around the bottom
//! face (0 to 3), around the top face (4 to 7), and then upwards (8 to 11).
//! A configuration is a byte whose bit `i` is set when corner `i` lies
//! inside the surface. Both tables are the classic reference tables; cubes
//! with ambiguous faces get the reference triangulation as it stands.

use crate::utils::UVec3;
use vstd::prelude::*;

verus! {

/// Number of corners of a cube.
pub const CORNER_COUNT: u8 = 8;

/// Number of edges of a cube.
pub const EDGE_COUNT: u8 = 12;

/// The entry that ends a row of the triangulation table and fills its rest.
pub const ROW_END: u8 = 15;

/// The coordinate of a corner along one axis, from the cube's minimum
/// corner: axis 0 is x, axis 1 is y, and any other is z. The corners run
/// round the bottom face, (0,0,0), (1,0,0), (1,0,1), (0,0,1), and then in
/// the same way round the top face.
pub open spec fn corner_coordinate(corner: u8, axis: u8) -> u32 {
    if axis == 0 {
        if corner == 1 || corner == 2 || corner == 5 || corner == 6 {
            1
        } else {
            0
        }
    } else if axis == 1 {
        if corner >= 4 {
            1
        } else {
            0
        }
    } else {
        if corner == 2 || corner == 3 || corner == 6 || corner == 7 {
            1
        } else {
            0
        }
    }
}

/// Offset of a corner from the cube's minimum corner.
pub open spec fn corner_offset_spec(corner: u8) -> UVec3 {
    UVec3 {
        x: corner_coordinate(corner, 0),
        y: corner_coordinate(corner, 1),
        z: corner_coordinate(corner, 2),
    }
}

/// Offset of a corner from the cube's minimum corner.
#[verifier::when_used_as_spec(corner_offset_spec)]
pub fn corner_offset(corner: u8) -> (offset: UVec3)
    requires
        corner < CORNER_COUNT,
    ensures
        offset == corner_offset_spec(corner),
{
    match corner {
        0 => UVec3 { x: 0, y: 0, z: 0 },
        1 => UVec3 { x: 1, y: 0, z: 0 },
        2 => UVec3 { x: 1, y: 0, z: 1 },
        3 => UVec3 { x: 0, y: 0, z: 1 },
        4 => UVec3 { x: 0, y: 1, z: 0 },
        5 => UVec3 { x: 1, y: 1, z: 0 },
        6 => UVec3 { x: 1, y: 1, z: 1 },
        _ => UVec3 { x: 0, y: 1, z: 1 },
    }
}

/// The corner at which an edge starts.
pub open spec fn edge_start(edge: u8) -> u8 {
    match edge {
        0 => 0u8,
        1 => 1u8,
        2 => 2u8,
        3 => 3u8,
        4 => 4u8,
        5 => 5u8,
        6 => 6u8,
        7 => 7u8,
        8 => 0u8,
        9 => 1u8,
        10 => 2u8,
        _ => 3u8,
    }
}

/// The corner at which an edge ends.
pub open spec fn edge_end(edge: u8) -> u8 {
    match edge {
        0 => 1u8,
        1 => 2u8,
        2 => 3u8,
        3 => 0u8,
        4 => 5u8,
        5 => 6u8,
        6 => 7u8,
        7 => 4u8,
        8 => 4u8,
        9 => 5u8,
        10 => 6u8,
        _ => 7u8,
    }
}

/// The two corners that an edge joins, start first.
pub const EDGE_VERTICES: [(u8, u8); 12] = [
    (0, 1),
    (1, 2),
    (2, 3),
    (3, 0),
    (4, 5),
    (5, 6),
    (6, 7),
    (7, 4),
    (0, 4),
    (1, 5),
    (2, 6),
    (3, 7),
];

/// The two corners that an edge joins, start first.
pub fn edge_vertices(edge: u8) -> (ends: (u8, u8))
    requires
        edge < EDGE_COUNT,
    ensures
        ends.0 == edge_start(edge),
        ends.1 == edge_end(edge),
        ends.0 < CORNER_COUNT,
        ends.1 < CORNER_COUNT,
{
    EDGE_VERTICES[edge as usize]
}

/// Whether `corner` is one of the two ends of `edge`.
pub open spec fn edge_touches_corner(edge: u8, corner: u8) -> bool {
    edge_start(edge) == corner || edge_end(edge) == corner
}

/// Whether a configuration has `corner` inside the surface.
pub open spec fn corner_inside(config: u8, corner: u8) -> bool {
    (config >> corner) & 1 == 1
}

/// Whether the surface crosses `edge`: its two ends lie on different sides.
pub open spec fn edge_crossed(config: u8, edge: u8) -> bool {
    corner_inside(config, edge_start(edge)) != corner_inside(config, edge_end(edge))
}

/// Whether an edge set, held as a 12-bit mask, has `edge` in it.
pub open spec fn mask_has_edge(mask: u16, edge: u8) -> bool {
    (mask >> edge) & 1 == 1
}

/// Entry `k` of a packed row of the triangulation table: four bits each,
/// the first entry in the lowest bits.
pub open spec fn row_entry(row: u64, k: u8) -> u8 {
    ((row >> (4 * k)) & 0xF) as u8
}

/// Twice the coordinate, along one axis, of the middle of an edge.
pub open spec fn edge_middle(edge: u8, axis: u8) -> int {
    corner_coordinate(edge_start(edge), axis) + corner_coordinate(edge_end(edge), axis)
}

/// The step along one axis from the end of an edge that is inside the
/// surface to the end that is outside, for an edge that the surface crosses.
pub open spec fn edge_outward(config: u8, edge: u8, axis: u8) -> int {
    if corner_inside(config, edge_start(edge)) {
        corner_coordinate(edge_end(edge), axis) - corner_coordinate(edge_start(edge), axis)
    } else {
        corner_coordinate(edge_start(edge), axis) - corner_coordinate(edge_end(edge), axis)
    }
}

/// The triple product of three vectors of integers: the cross product of
/// the first two, times the third.
pub open spec fn triple_product(
    ux: int,
    uy: int,
    uz: int,
    vx: int,
    vy: int,
    vz: int,
    wx: int,
    wy: int,
    wz: int,
) -> int {
    (uy * vz - uz * vy) * wx + (uz * vx - ux * vz) * wy + (ux * vy - uy * vx) * wz
}

/// Whether the triangle on the edges `a`, `b`, `c`, in this order, faces
/// from the inside of the surface to the outside: with its vertices at the
/// middles of the edges, its normal, which is the cross product of the steps
/// from `a` to `b` and from `a` to `c`, and the sum of the steps that lead
/// outwards along the three edges point to the same side.
pub open spec fn faces_outward(config: u8, a: u8, b: u8, c: u8) -> bool {
    triple_product(
        edge_middle(b, 0) - edge_middle(a, 0),
        edge_middle(b, 1) - edge_middle(a, 1),
        edge_middle(b, 2) - edge_middle(a, 2),
        edge_middle(c, 0) - edge_middle(a, 0),
        edge_middle(c, 1) - edge_middle(a, 1),
        edge_middle(c, 2) - edge_middle(a, 2),
        edge_outward(config, a, 0) + edge_outward(config, b, 0) + edge_outward(config, c, 0),
        edge_outward(config, a, 1) + edge_outward(config, b, 1) + edge_outward(config, c, 1),
        edge_outward(config, a, 2) + edge_outward(config, b, 2) + edge_outward(config, c, 2),
    ) > 0
}

/// The edge set of a configuration, as the table has it: a block for each
/// value of the configuration's upper four bits, and in it an entry for each
/// value of the lower four.
pub open spec fn edge_table(config: u8) -> u16 {
    match config / 16 {
        0 => match config % 16 {
            0 => 0x000u16,
            1 => 0x109u16,
            2 => 0x203u16,
            3 => 0x30Au16,
            4 => 0x406u16,
            5 => 0x50Fu16,
            6 => 0x605u16,
            7 => 0x70Cu16,
            8 => 0x80Cu16,
            9 => 0x905u16,
            10 => 0xA0Fu16,
            11 => 0xB06u16,
            12 => 0xC0Au16,
            13 => 0xD03u16,
            14 => 0xE09u16,
            _ => 0xF00u16,
        },
        1 => match config % 16 {
            0 => 0x190u16,
            1 => 0x099u16,
            2 => 0x393u16,
            3 => 0x29Au16,
            4 => 0x596u16,
            5 => 0x49Fu16,
            6 => 0x795u16,
            7 => 0x69Cu16,
            8 => 0x99Cu16,
            9 => 0x895u16,
            10 => 0xB9Fu16,
            11 => 0xA96u16,
            12 => 0xD9Au16,
            13 => 0xC93u16,
            14 => 0xF99u16,
            _ => 0xE90u16,
        },
        2 => match config % 16 {
            0 => 0x230u16,
            1 => 0x339u16,
            2 => 0x033u16,
            3 => 0x13Au16,
            4 => 0x636u16,
            5 => 0x73Fu16,
            6 => 0x435u16,
            7 => 0x53Cu16,
            8 => 0xA3Cu16,
            9 => 0xB35u16,
            10 => 0x83Fu16,
            11 => 0x936u16,
            12 => 0xE3Au16,
            13 => 0xF33u16,
            14 => 0xC39u16,
            _ => 0xD30u16,
        },
        3 => match config % 16 {
            0 => 0x3A0u16,
            1 => 0x2A9u16,
            2 => 0x1A3u16,
            3 => 0x0AAu16,
            4 => 0x7A6u16,
            5 => 0x6AFu16,
            6 => 0x5A5u16,
            7 => 0x4ACu16,
            8 => 0xBACu16,
            9 => 0xAA5u16,
            10 => 0x9AFu16,
            11 => 0x8A6u16,
            12 => 0xFAAu16,
            13 => 0xEA3u16,
            14 => 0xDA9u16,
            _ => 0xCA0u16,
        },
        4 => match config % 16 {
            0 => 0x460u16,
            1 => 0x569u16,
            2 => 0x663u16,
            3 => 0x76Au16,
            4 => 0x066u16,
            5 => 0x16Fu16,
            6 => 0x265u16,
            7 => 0x36Cu16,
            8 => 0xC6Cu16,
            9 => 0xD65u16,
            10 => 0xE6Fu16,
            11 => 0xF66u16,
            12 => 0x86Au16,
            13 => 0x963u16,
            14 => 0xA69u16,
            _ => 0xB60u16,
        },
        5 => match config % 16 {
            0 => 0x5F0u16,
            1 => 0x4F9u16,
            2 => 0x7F3u16,
            3 => 0x6FAu16,
            4 => 0x1F6u16,
            5 => 0x0FFu16,
            6 => 0x3F5u16,
            7 => 0x2FCu16,
            8 => 0xDFCu16,
            9 => 0xCF5u16,
            10 => 0xFFFu16,
            11 => 0xEF6u16,
            12 => 0x9FAu16,
            13 => 0x8F3u16,
            14 => 0xBF9u16,
            _ => 0xAF0u16,
        },
        6 => match config % 16 {
            0 => 0x650u16,
            1 => 0x759u16,
            2 => 0x453u16,
            3 => 0x55Au16,
            4 => 0x256u16,
            5 => 0x35Fu16,
            6 => 0x055u16,
            7 => 0x15Cu16,
            8 => 0xE5Cu16,
            9 => 0xF55u16,
            10 => 0xC5Fu16,
            11 => 0xD56u16,
            12 => 0xA5Au16,
            13 => 0xB53u16,
            14 => 0x859u16,
            _ => 0x950u16,
        },
        7 => match config % 16 {
            0 => 0x7C0u16,
            1 => 0x6C9u16,
            2 => 0x5C3u16,
            3 => 0x4CAu16,
            4 => 0x3C6u16,
            5 => 0x2CFu16,
            6 => 0x1C5u16,
            7 => 0x0CCu16,
            8 => 0xFCCu16,
            9 => 0xEC5u16,
            10 => 0xDCFu16,
            11 => 0xCC6u16,
            12 => 0xBCAu16,
            13 => 0xAC3u16,
            14 => 0x9C9u16,
            _ => 0x8C0u16,
        },
        8 => match config % 16 {
            0 => 0x8C0u16,
            1 => 0x9C9u16,
            2 => 0xAC3u16,
            3 => 0xBCAu16,
            4 => 0xCC6u16,
            5 => 0xDCFu16,
            6 => 0xEC5u16,
            7 => 0xFCCu16,
            8 => 0x0CCu16,
            9 => 0x1C5u16,
            10 => 0x2CFu16,
            11 => 0x3C6u16,
            12 => 0x4CAu16,
            13 => 0x5C3u16,
            14 => 0x6C9u16,
            _ => 0x7C0u16,
        },
        9 => match config % 16 {
            0 => 0x950u16,
            1 => 0x859u16,
            2 => 0xB53u16,
            3 => 0xA5Au16,
            4 => 0xD56u16,
            5 => 0xC5Fu16,
            6 => 0xF55u16,
            7 => 0xE5Cu16,
            8 => 0x15Cu16,
            9 => 0x055u16,
            10 => 0x35Fu16,
            11 => 0x256u16,
            12 => 0x55Au16,
            13 => 0x453u16,
            14 => 0x759u16,
            _ => 0x650u16,
        },
        10 => match config % 16 {
            0 => 0xAF0u16,
            1 => 0xBF9u16,
            2 => 0x8F3u16,
            3 => 0x9FAu16,
            4 => 0xEF6u16,
            5 => 0xFFFu16,
            6 => 0xCF5u16,
            7 => 0xDFCu16,
            8 => 0x2FCu16,
            9 => 0x3F5u16,
            10 => 0x0FFu16,
            11 => 0x1F6u16,
            12 => 0x6FAu16,
            13 => 0x7F3u16,
            14 => 0x4F9u16,
            _ => 0x5F0u16,
        },
        11 => match config % 16 {
            0 => 0xB60u16,
            1 => 0xA69u16,
            2 => 0x963u16,
            3 => 0x86Au16,
            4 => 0xF66u16,
            5 => 0xE6Fu16,
            6 => 0xD65u16,
            7 => 0xC6Cu16,
            8 => 0x36Cu16,
            9 => 0x265u16,
            10 => 0x16Fu16,
            11 => 0x066u16,
            12 => 0x76Au16,
            13 => 0x663u16,
            14 => 0x569u16,
            _ => 0x460u16,
        },
        12 => match config % 16 {
            0 => 0xCA0u16,
            1 => 0xDA9u16,
            2 => 0xEA3u16,
            3 => 0xFAAu16,
            4 => 0x8A6u16,
            5 => 0x9AFu16,
            6 => 0xAA5u16,
            7 => 0xBACu16,
            8 => 0x4ACu16,
            9 => 0x5A5u16,
            10 => 0x6AFu16,
            11 => 0x7A6u16,
            12 => 0x0AAu16,
            13 => 0x1A3u16,
            14 => 0x2A9u16,
            _ => 0x3A0u16,
        },
        13 => match config % 16 {
            0 => 0xD30u16,
            1 => 0xC39u16,
            2 => 0xF33u16,
            3 => 0xE3Au16,
            4 => 0x936u16,
            5 => 0x83Fu16,
            6 => 0xB35u16,
            7 => 0xA3Cu16,
            8 => 0x53Cu16,
            9 => 0x435u16,
            10 => 0x73Fu16,
            11 => 0x636u16,
            12 => 0x13Au16,
            13 => 0x033u16,
            14 => 0x339u16,
            _ => 0x230u16,
        },
        14 => match config % 16 {
            0 => 0xE90u16,
            1 => 0xF99u16,
            2 => 0xC93u16,
            3 => 0xD9Au16,
            4 => 0xA96u16,
            5 => 0xB9Fu16,
            6 => 0x895u16,
            7 => 0x99Cu16,
            8 => 0x69Cu16,
            9 => 0x795u16,
            10 => 0x49Fu16,
            11 => 0x596u16,
            12 => 0x29Au16,
            13 => 0x393u16,
            14 => 0x099u16,
            _ => 0x190u16,
        },
        _ => match config % 16 {
            0 => 0xF00u16,
            1 => 0xE09u16,
            2 => 0xD03u16,
            3 => 0xC0Au16,
            4 => 0xB06u16,
            5 => 0xA0Fu16,
            6 => 0x905u16,
            7 => 0x80Cu16,
            8 => 0x70Cu16,
            9 => 0x605u16,
            10 => 0x50Fu16,
            11 => 0x406u16,
            12 => 0x30Au16,
            13 => 0x203u16,
            14 => 0x109u16,
            _ => 0x000u16,
        },
    }
}

/// The packed row of the triangulation table for a configuration: up to
/// fifteen edge numbers, three for each triangle, and `ROW_END` from there on.
pub open spec fn triangulation_row(config: u8) -> u64 {
    match config / 16 {
        0 => match config % 16 {
            0 => 0xFFFF_FFFF_FFFF_FFFFu64,
            1 => 0xFFFF_FFFF_FFFF_F380u64,
            2 => 0xFFFF_FFFF_FFFF_F910u64,
            3 => 0xFFFF_FFFF_FF18_9381u64,
            4 => 0xFFFF_FFFF_FFFF_FA21u64,
            5 => 0xFFFF_FFFF_FFA2_1380u64,
            6 => 0xFFFF_FFFF_FF92_0A29u64,
            7 => 0xFFFF_FFF8_9A8A_2382u64,
            8 => 0xFFFF_FFFF_FFFF_F2B3u64,
            9 => 0xFFFF_FFFF_FF0B_82B0u64,
            10 => 0xFFFF_FFFF_FFB3_2091u64,
            11 => 0xFFFF_FFFB_89B9_12B1u64,
            12 => 0xFFFF_FFFF_FF3A_B1A3u64,
            13 => 0xFFFF_FFFA_B8A8_01A0u64,
            14 => 0xFFFF_FFF9_AB9B_3093u64,
            _ => 0xFFFF_FFFF_FFB8_AA89u64,
        },
        1 => match config % 16 {
            0 => 0xFFFF_FFFF_FFFF_F874u64,
            1 => 0xFFFF_FFFF_FF43_7034u64,
            2 => 0xFFFF_FFFF_FF74_8910u64,
            3 => 0xFFFF_FFF1_3717_4914u64,
            4 => 0xFFFF_FFFF_FF74_8A21u64,
            5 => 0xFFFF_FFFA_2140_3743u64,
            6 => 0xFFFF_FFF7_4820_9A29u64,
            7 => 0xFFFF_4973_7279_29A2u64,
            8 => 0xFFFF_FFFF_FF2B_3748u64,
            9 => 0xFFFF_FFF4_0242_B74Bu64,
            10 => 0xFFFF_FFFB_3274_8109u64,
            11 => 0xFFFF_1292_B9B4_9B74u64,
            12 => 0xFFFF_FFF4_87AB_31A3u64,
            13 => 0xFFFF_4B74_01B4_1AB1u64,
            14 => 0xFFFF_30BA_B9B0_9874u64,
            _ => 0xFFFF_FFFA_B99B_4B74u64,
        },
        2 => match config % 16 {
            0 => 0xFFFF_FFFF_FFFF_F459u64,
            1 => 0xFFFF_FFFF_FF38_0459u64,
            2 => 0xFFFF_FFFF_FF05_1450u64,
            3 => 0xFFFF_FFF5_1353_8458u64,
            4 => 0xFFFF_FFFF_FF45_9A21u64,
            5 => 0xFFFF_FFF5_94A2_1803u64,
            6 => 0xFFFF_FFF2_0424_5A25u64,
            7 => 0xFFFF_8434_5352_35A2u64,
            8 => 0xFFFF_FFFF_FFB3_2459u64,
            9 => 0xFFFF_FFF5_94B8_02B0u64,
            10 => 0xFFFF_FFFB_3251_0450u64,
            11 => 0xFFFF_584B_8285_2512u64,
            12 => 0xFFFF_FFF4_5931_AB3Au64,
            13 => 0xFFFF_AB81_A818_0594u64,
            14 => 0xFFFF_30BA_B5B0_5045u64,
            _ => 0xFFFF_FFFB_8AA8_5845u64,
        },
        3 => match config % 16 {
            0 => 0xFFFF_FFFF_FF97_5879u64,
            1 => 0xFFFF_FFF3_7535_9039u64,
            2 => 0xFFFF_FFF7_5171_0870u64,
            3 => 0xFFFF_FFFF_FF75_3351u64,
            4 => 0xFFFF_FFF2_1A75_9879u64,
            5 => 0xFFFF_3750_3505_921Au64,
            6 => 0xFFFF_25A7_5852_8208u64,
            7 => 0xFFFF_FFF7_5335_25A2u64,
            8 => 0xFFFF_FFF2_B398_7597u64,
            9 => 0xFFFF_B720_2927_9759u64,
            10 => 0xFFFF_7518_7181_0B32u64,
            11 => 0xFFFF_FFF5_1771_B12Bu64,
            12 => 0xFFFF_B3A3_1A75_8859u64,
            13 => 0xF0AB_A010_B790_5075u64,
            14 => 0xF075_7080_5A30_B0ABu64,
            _ => 0xFFFF_FFFF_FF5B_75ABu64,
        },
        4 => match config % 16 {
            0 => 0xFFFF_FFFF_FFFF_F56Au64,
            1 => 0xFFFF_FFFF_FF6A_5380u64,
            2 => 0xFFFF_FFFF_FF6A_5109u64,
            3 => 0xFFFF_FFF6_A589_1381u64,
            4 => 0xFFFF_FFFF_FF16_2561u64,
            5 => 0xFFFF_FFF8_0362_1561u64,
            6 => 0xFFFF_FFF6_2060_9569u64,
            7 => 0xFFFF_8236_2528_5895u64,
            8 => 0xFFFF_FFFF_FF56_AB32u64,
            9 => 0xFFFF_FFF5_6A02_B80Bu64,
            10 => 0xFFFF_FFF6_A5B3_2910u64,
            11 => 0xFFFF_B892_B929_16A5u64,
            12 => 0xFFFF_FFF3_1535_6B36u64,
            13 => 0xFFFF_6B51_505B_0B80u64,
            14 => 0xFFFF_9505_6063_06B3u64,
            _ => 0xFFFF_FFF8_9BB9_6956u64,
        },
        5 => match config % 16 {
            0 => 0xFFFF_FFFF_FF87_46A5u64,
            1 => 0xFFFF_FFFA_5637_4034u64,
            2 => 0xFFFF_FFF7_486A_5091u64,
            3 => 0xFFFF_4973_7179_156Au64,
            4 => 0xFFFF_FFF8_7415_6216u64,
            5 => 0xFFFF_7434_0362_5521u64,
            6 => 0xFFFF_6205_6050_9748u64,
            7 => 0xF962_6959_2349_7937u64,
            8 => 0xFFFF_FFF5_6A48_72B3u64,
            9 => 0xFFFF_B720_2427_46A5u64,
            10 => 0xFFFF_6A5B_3287_4910u64,
            11 => 0xF6A5_4B7B_492B_9129u64,
            12 => 0xFFFF_6B51_535B_3748u64,
            13 => 0xFB40_4B7B_016B_5B15u64,
            14 => 0xF748_36B6_3056_0950u64,
            _ => 0xFFFF_9B79_74B9_6956u64,
        },
        6 => match config % 16 {
            0 => 0xFFFF_FFFF_FFA4_694Au64,
            1 => 0xFFFF_FFF3_80A9_46A4u64,
            2 => 0xFFFF_FFF0_4606_A10Au64,
            3 => 0xFFFF_A164_6861_8138u64,
            4 => 0xFFFF_FFF4_6242_1941u64,
            5 => 0xFFFF_4629_4292_1803u64,
            6 => 0xFFFF_FFFF_FF62_4420u64,
            7 => 0xFFFF_FFF6_2442_8238u64,
            8 => 0xFFFF_FFF3_2B46_A94Au64,
            9 => 0xFFFF_6A4A_94B8_2280u64,
            10 => 0xFFFF_A164_6061_02B3u64,
            11 => 0xF1B8_B121_84A1_6146u64,
            12 => 0xFFFF_36B3_1963_9469u64,
            13 => 0xF146_4191_6B01_81B8u64,
            14 => 0xFFFF_FFF4_6006_36B3u64,
            _ => 0xFFFF_FFFF_FF86_B846u64,
        },
        7 => match config % 16 {
            0 => 0xFFFF_FFFA_98A8_76A7u64,
            1 => 0xFFFF_A76A_907A_0370u64,
            2 => 0xFFFF_0818_717A_176Au64,
            3 => 0xFFFF_FFF3_7117_A76Au64,
            4 => 0xFFFF_7689_8186_1621u64,
            5 => 0xF937_3909_7619_2962u64,
            6 => 0xFFFF_FFF2_0660_7087u64,
            7 => 0xFFFF_FFFF_FF27_6237u64,
            8 => 0xFFFF_7689_8A86_AB32u64,
            9 => 0xF7A9_A767_90B7_2702u64,
            10 => 0xFB32_A767_A187_1081u64,
            11 => 0xFFFF_1761_6A71_B12Bu64,
            12 => 0xF631_36B6_1976_8698u64,
            13 => 0xFFFF_FFFF_FF76_B190u64,
            14 => 0xFFFF_06B0_B360_7087u64,
            _ => 0xFFFF_FFFF_FFFF_F6B7u64,
        },
        8 => match config % 16 {
            0 => 0xFFFF_FFFF_FFFF_FB67u64,
            1 => 0xFFFF_FFFF_FF67_B803u64,
            2 => 0xFFFF_FFFF_FF67_B910u64,
            3 => 0xFFFF_FFF6_7B13_8918u64,
            4 => 0xFFFF_FFFF_FF7B_621Au64,
            5 => 0xFFFF_FFF7_B680_3A21u64,
            6 => 0xFFFF_FFF7_B69A_2092u64,
            7 => 0xFFFF_89A3_8A3A_27B6u64,
            8 => 0xFFFF_FFFF_FF72_6327u64,
            9 => 0xFFFF_FFF0_2606_7807u64,
            10 => 0xFFFF_FFF9_1073_2672u64,
            11 => 0xFFFF_6788_9168_1261u64,
            12 => 0xFFFF_FFF7_3171_A67Au64,
            13 => 0xFFFF_8017_81A7_167Au64,
            14 => 0xFFFF_7A69_A0A7_0730u64,
            _ => 0xFFFF_FFF9_A88A_7A67u64,
        },
        9 => match config % 16 {
            0 => 0xFFFF_FFFF_FF68_B486u64,
            1 => 0xFFFF_FFF6_4060_3B63u64,
            2 => 0xFFFF_FFF1_0964_8B68u64,
            3 => 0xFFFF_63B1_3936_9649u64,
            4 => 0xFFFF_FFF1_A28B_6486u64,
            5 => 0xFFFF_640B_60B0_3A21u64,
            6 => 0xFFFF_9A29_20B6_48B4u64,
            7 => 0xF364_63B3_4923_A39Au64,
            8 => 0xFFFF_FFF2_6424_8328u64,
            9 => 0xFFFF_FFFF_FF26_4240u64,
            10 => 0xFFFF_8346_4243_2091u64,
            11 => 0xFFFF_FFF6_4224_1491u64,
            12 => 0xFFFF_1A66_4816_8318u64,
            13 => 0xFFFF_FFF4_0660_A01Au64,
            14 => 0xF39A_9303_A683_4364u64,
            _ => 0xFFFF_FFFF_FF4A_649Au64,
        },
        10 => match config % 16 {
            0 => 0xFFFF_FFFF_FFB6_7594u64,
            1 => 0xFFFF_FFF6_7B59_4380u64,
            2 => 0xFFFF_FFFB_6704_5105u64,
            3 => 0xFFFF_5134_5343_867Bu64,
            4 => 0xFFFF_FFFB_6721_A459u64,
            5 => 0xFFFF_5943_80A2_17B6u64,
            6 => 0xFFFF_204A_24A4_5B67u64,
            7 => 0xF67B_25A5_2345_3843u64,
            8 => 0xFFFF_FFF9_4526_7327u64,
            9 => 0xFFFF_7862_6068_0459u64,
            10 => 0xFFFF_0450_5167_3263u64,
            11 => 0xF851_5848_1278_6826u64,
            12 => 0xFFFF_7316_7161_A459u64,
            13 => 0xF459_0787_0167_1A61u64,
            14 => 0xFA73_7A6A_305A_4A04u64,
            _ => 0xFFFF_A84A_458A_7A67u64,
        },
        11 => match config % 16 {
            0 => 0xFFFF_FFF9_8B9B_6596u64,
            1 => 0xFFFF_5906_5036_0B63u64,
            2 => 0xFFFF_B655_10B5_08B0u64,
            3 => 0xFFFF_FFF1_3553_63B6u64,
            4 => 0xFFFF_65B8_B9B5_9A21u64,
            5 => 0xFA21_9656_90B6_03B0u64,
            6 => 0xF520_25A5_0865_B58Bu64,
            7 => 0xFFFF_35A3_A253_63B6u64,
            8 => 0xFFFF_2832_6582_5985u64,
            9 => 0xFFFF_FFF2_6006_9659u64,
            10 => 0xF826_2838_6508_1851u64,
            11 => 0xFFFF_FFFF_FF61_2651u64,
            12 => 0xF698_9656_83A6_1631u64,
            13 => 0xFFFF_0650_5960_A01Au64,
            14 => 0xFFFF_FFFF_FFA6_5830u64,
            _ => 0xFFFF_FFFF_FFFF_F65Au64,
        },
        12 => match config % 16 {
            0 => 0xFFFF_FFFF_FFB5_7A5Bu64,
            1 => 0xFFFF_FFF0_3857_BA5Bu64,
            2 => 0xFFFF_FFF0_91BA_57B5u64,
            3 => 0xFFFF_1381_897B_A57Au64,
            4 => 0xFFFF_FFF1_5717_B21Bu64,
            5 => 0xFFFF_B275_7172_1380u64,
            6 => 0xFFFF_7B22_0972_9579u64,
            7 => 0xF289_8232_95B2_7257u64,
            8 => 0xFFFF_FFF5_7353_2A52u64,
            9 => 0xFFFF_52A5_7825_8028u64,
            10 => 0xFFFF_2A37_353A_5109u64,
            11 => 0xF257_52A2_7812_9289u64,
            12 => 0xFFFF_FFFF_FF57_3531u64,
            13 => 0xFFFF_FFF5_7117_0780u64,
            14 => 0xFFFF_FFF7_3553_9309u64,
            _ => 0xFFFF_FFFF_FF79_5789u64,
        },
        13 => match config % 16 {
            0 => 0xFFFF_FFF8_BA8A_5485u64,
            1 => 0xFFFF_03BB_A50B_5405u64,
            2 => 0xFFFF_54AB_A8A4_8910u64,
            3 => 0xF413_1494_3B54_A4BAu64,
            4 => 0xFFFF_8548_B258_2152u64,
            5 => 0xFB15_1B2B_543B_0B40u64,
            6 => 0xF58B_8545_B295_0520u64,
            7 => 0xFFFF_FFFF_FF3B_2549u64,
            8 => 0xFFFF_4835_4325_3A52u64,
            9 => 0xFFFF_FFF0_2442_52A5u64,
            10 => 0xF910_8545_83A5_32A3u64,
            11 => 0xFFFF_2492_9142_52A5u64,
            12 => 0xFFFF_FFF1_5335_8548u64,
            13 => 0xFFFF_FFFF_FF50_1540u64,
            14 => 0xFFFF_5305_0935_8548u64,
            _ => 0xFFFF_FFFF_FFFF_F549u64,
        },
        14 => match config % 16 {
            0 => 0xFFFF_FFFB_A9B9_47B4u64,
            1 => 0xFFFF_BA97_B979_4380u64,
            2 => 0xFFFF_B470_414B_1BA1u64,
            3 => 0xF4BA_B474_A184_3413u64,
            4 => 0xFFFF_219B_294B_97B4u64,
            5 => 0xF380_1B2B_197B_9479u64,
            6 => 0xFFFF_FFF0_4224_B47Bu64,
            7 => 0xFFFF_4234_3824_B47Bu64,
            8 => 0xFFFF_9477_3297_2A92u64,
            9 => 0xF702_0787_2A47_97A9u64,
            10 => 0xFA04_0A1A_472A_3A73u64,
            11 => 0xFFFF_FFFF_FF47_82A1u64,
            12 => 0xFFFF_FFF3_1771_4194u64,
            13 => 0xFFFF_1781_8071_4194u64,
            14 => 0xFFFF_FFFF_FF34_7304u64,
            _ => 0xFFFF_FFFF_FFFF_F784u64,
        },
        _ => match config % 16 {
            0 => 0xFFFF_FFFF_FF8B_A8A9u64,
            1 => 0xFFFF_FFFA_9BB9_3903u64,
            2 => 0xFFFF_FFFB_A88A_0A10u64,
            3 => 0xFFFF_FFFF_FFA3_BA13u64,
            4 => 0xFFFF_FFF8_B99B_1B21u64,
            5 => 0xFFFF_9B29_21B9_3903u64,
            6 => 0xFFFF_FFFF_FFB0_8B20u64,
            7 => 0xFFFF_FFFF_FFFF_FB23u64,
            8 => 0xFFFF_FFF9_8AA8_2832u64,
            9 => 0xFFFF_FFFF_FF29_02A9u64,
            10 => 0xFFFF_8A18_10A8_2832u64,
            11 => 0xFFFF_FFFF_FFFF_F2A1u64,
            12 => 0xFFFF_FFFF_FF81_9831u64,
            13 => 0xFFFF_FFFF_FFFF_F190u64,
            14 => 0xFFFF_FFFF_FFFF_F830u64,
            _ => 0xFFFF_FFFF_FFFF_FFFFu64,
        },
    }
}

/// The edge table: for each configuration a 12-bit mask, whose bit `e` is set
/// when the surface crosses edge `e`.
pub const EDGE_TABLE: [u16; 256] = [
    0x000, 0x109, 0x203, 0x30A, 0x406, 0x50F, 0x605, 0x70C,
    0x80C, 0x905, 0xA0F, 0xB06, 0xC0A, 0xD03, 0xE09, 0xF00,
    0x190, 0x099, 0x393, 0x29A, 0x596, 0x49F, 0x795, 0x69C,
    0x99C, 0x895, 0xB9F, 0xA96, 0xD9A, 0xC93, 0xF99, 0xE90,
    0x230, 0x339, 0x033, 0x13A, 0x636, 0x73F, 0x435, 0x53C,
    0xA3C, 0xB35, 0x83F, 0x936, 0xE3A, 0xF33, 0xC39, 0xD30,
    0x3A0, 0x2A9, 0x1A3, 0x0AA, 0x7A6, 0x6AF, 0x5A5, 0x4AC,
    0xBAC, 0xAA5, 0x9AF, 0x8A6, 0xFAA, 0xEA3, 0xDA9, 0xCA0,
    0x460, 0x569, 0x663, 0x76A, 0x066, 0x16F, 0x265, 0x36C,
    0xC6C, 0xD65, 0xE6F, 0xF66, 0x86A, 0x963, 0xA69, 0xB60,
    0x5F0, 0x4F9, 0x7F3, 0x6FA, 0x1F6, 0x0FF, 0x3F5, 0x2FC,
    0xDFC, 0xCF5, 0xFFF, 0xEF6, 0x9FA, 0x8F3, 0xBF9, 0xAF0,
    0x650, 0x759, 0x453, 0x55A, 0x256, 0x35F, 0x055, 0x15C,
    0xE5C, 0xF55, 0xC5F, 0xD56, 0xA5A, 0xB53, 0x859, 0x950,
    0x7C0, 0x6C9, 0x5C3, 0x4CA, 0x3C6, 0x2CF, 0x1C5, 0x0CC,
    0xFCC, 0xEC5, 0xDCF, 0xCC6, 0xBCA, 0xAC3, 0x9C9, 0x8C0,
    0x8C0, 0x9C9, 0xAC3, 0xBCA, 0xCC6, 0xDCF, 0xEC5, 0xFCC,
    0x0CC, 0x1C5, 0x2CF, 0x3C6, 0x4CA, 0x5C3, 0x6C9, 0x7C0,
    0x950, 0x859, 0xB53, 0xA5A, 0xD56, 0xC5F, 0xF55, 0xE5C,
    0x15C, 0x055, 0x35F, 0x256, 0x55A, 0x453, 0x759, 0x650,
    0xAF0, 0xBF9, 0x8F3, 0x9FA, 0xEF6, 0xFFF, 0xCF5, 0xDFC,
    0x2FC, 0x3F5, 0x0FF, 0x1F6, 0x6FA, 0x7F3, 0x4F9, 0x5F0,
    0xB60, 0xA69, 0x963, 0x86A, 0xF66, 0xE6F, 0xD65, 0xC6C,
    0x36C, 0x265, 0x16F, 0x066, 0x76A, 0x663, 0x569, 0x460,
    0xCA0, 0xDA9, 0xEA3, 0xFAA, 0x8A6, 0x9AF, 0xAA5, 0xBAC,
    0x4AC, 0x5A5, 0x6AF, 0x7A6, 0x0AA, 0x1A3, 0x2A9, 0x3A0,
    0xD30, 0xC39, 0xF33, 0xE3A, 0x936, 0x83F, 0xB35, 0xA3C,
    0x53C, 0x435, 0x73F, 0x636, 0x13A, 0x033, 0x339, 0x230,
    0xE90, 0xF99, 0xC93, 0xD9A, 0xA96, 0xB9F, 0x895, 0x99C,
    0x69C, 0x795, 0x49F, 0x596, 0x29A, 0x393, 0x099, 0x190,
    0xF00, 0xE09, 0xD03, 0xC0A, 0xB06, 0xA0F, 0x905, 0x80C,
    0x70C, 0x605, 0x50F, 0x406, 0x30A, 0x203, 0x109, 0x000,
];

/// The triangulation table: for each configuration its packed row.
pub const TRIANGULATION_TABLE: [u64; 256] = [
    0xFFFF_FFFF_FFFF_FFFF, 0xFFFF_FFFF_FFFF_F380, 0xFFFF_FFFF_FFFF_F910, 0xFFFF_FFFF_FF18_9381,
    0xFFFF_FFFF_FFFF_FA21, 0xFFFF_FFFF_FFA2_1380, 0xFFFF_FFFF_FF92_0A29, 0xFFFF_FFF8_9A8A_2382,
    0xFFFF_FFFF_FFFF_F2B3, 0xFFFF_FFFF_FF0B_82B0, 0xFFFF_FFFF_FFB3_2091, 0xFFFF_FFFB_89B9_12B1,
    0xFFFF_FFFF_FF3A_B1A3, 0xFFFF_FFFA_B8A8_01A0, 0xFFFF_FFF9_AB9B_3093, 0xFFFF_FFFF_FFB8_AA89,
    0xFFFF_FFFF_FFFF_F874, 0xFFFF_FFFF_FF43_7034, 0xFFFF_FFFF_FF74_8910, 0xFFFF_FFF1_3717_4914,
    0xFFFF_FFFF_FF74_8A21, 0xFFFF_FFFA_2140_3743, 0xFFFF_FFF7_4820_9A29, 0xFFFF_4973_7279_29A2,
    0xFFFF_FFFF_FF2B_3748, 0xFFFF_FFF4_0242_B74B, 0xFFFF_FFFB_3274_8109, 0xFFFF_1292_B9B4_9B74,
    0xFFFF_FFF4_87AB_31A3, 0xFFFF_4B74_01B4_1AB1, 0xFFFF_30BA_B9B0_9874, 0xFFFF_FFFA_B99B_4B74,
    0xFFFF_FFFF_FFFF_F459, 0xFFFF_FFFF_FF38_0459, 0xFFFF_FFFF_FF05_1450, 0xFFFF_FFF5_1353_8458,
    0xFFFF_FFFF_FF45_9A21, 0xFFFF_FFF5_94A2_1803, 0xFFFF_FFF2_0424_5A25, 0xFFFF_8434_5352_35A2,
    0xFFFF_FFFF_FFB3_2459, 0xFFFF_FFF5_94B8_02B0, 0xFFFF_FFFB_3251_0450, 0xFFFF_584B_8285_2512,
    0xFFFF_FFF4_5931_AB3A, 0xFFFF_AB81_A818_0594, 0xFFFF_30BA_B5B0_5045, 0xFFFF_FFFB_8AA8_5845,
    0xFFFF_FFFF_FF97_5879, 0xFFFF_FFF3_7535_9039, 0xFFFF_FFF7_5171_0870, 0xFFFF_FFFF_FF75_3351,
    0xFFFF_FFF2_1A75_9879, 0xFFFF_3750_3505_921A, 0xFFFF_25A7_5852_8208, 0xFFFF_FFF7_5335_25A2,
    0xFFFF_FFF2_B398_7597, 0xFFFF_B720_2927_9759, 0xFFFF_7518_7181_0B32, 0xFFFF_FFF5_1771_B12B,
    0xFFFF_B3A3_1A75_8859, 0xF0AB_A010_B790_5075, 0xF075_7080_5A30_B0AB, 0xFFFF_FFFF_FF5B_75AB,
    0xFFFF_FFFF_FFFF_F56A, 0xFFFF_FFFF_FF6A_5380, 0xFFFF_FFFF_FF6A_5109, 0xFFFF_FFF6_A589_1381,
    0xFFFF_FFFF_FF16_2561, 0xFFFF_FFF8_0362_1561, 0xFFFF_FFF6_2060_9569, 0xFFFF_8236_2528_5895,
    0xFFFF_FFFF_FF56_AB32, 0xFFFF_FFF5_6A02_B80B, 0xFFFF_FFF6_A5B3_2910, 0xFFFF_B892_B929_16A5,
    0xFFFF_FFF3_1535_6B36, 0xFFFF_6B51_505B_0B80, 0xFFFF_9505_6063_06B3, 0xFFFF_FFF8_9BB9_6956,
    0xFFFF_FFFF_FF87_46A5, 0xFFFF_FFFA_5637_4034, 0xFFFF_FFF7_486A_5091, 0xFFFF_4973_7179_156A,
    0xFFFF_FFF8_7415_6216, 0xFFFF_7434_0362_5521, 0xFFFF_6205_6050_9748, 0xF962_6959_2349_7937,
    0xFFFF_FFF5_6A48_72B3, 0xFFFF_B720_2427_46A5, 0xFFFF_6A5B_3287_4910, 0xF6A5_4B7B_492B_9129,
    0xFFFF_6B51_535B_3748, 0xFB40_4B7B_016B_5B15, 0xF748_36B6_3056_0950, 0xFFFF_9B79_74B9_6956,
    0xFFFF_FFFF_FFA4_694A, 0xFFFF_FFF3_80A9_46A4, 0xFFFF_FFF0_4606_A10A, 0xFFFF_A164_6861_8138,
    0xFFFF_FFF4_6242_1941, 0xFFFF_4629_4292_1803, 0xFFFF_FFFF_FF62_4420, 0xFFFF_FFF6_2442_8238,
    0xFFFF_FFF3_2B46_A94A, 0xFFFF_6A4A_94B8_2280, 0xFFFF_A164_6061_02B3, 0xF1B8_B121_84A1_6146,
    0xFFFF_36B3_1963_9469, 0xF146_4191_6B01_81B8, 0xFFFF_FFF4_6006_36B3, 0xFFFF_FFFF_FF86_B846,
    0xFFFF_FFFA_98A8_76A7, 0xFFFF_A76A_907A_0370, 0xFFFF_0818_717A_176A, 0xFFFF_FFF3_7117_A76A,
    0xFFFF_7689_8186_1621, 0xF937_3909_7619_2962, 0xFFFF_FFF2_0660_7087, 0xFFFF_FFFF_FF27_6237,
    0xFFFF_7689_8A86_AB32, 0xF7A9_A767_90B7_2702, 0xFB32_A767_A187_1081, 0xFFFF_1761_6A71_B12B,
    0xF631_36B6_1976_8698, 0xFFFF_FFFF_FF76_B190, 0xFFFF_06B0_B360_7087, 0xFFFF_FFFF_FFFF_F6B7,
    0xFFFF_FFFF_FFFF_FB67, 0xFFFF_FFFF_FF67_B803, 0xFFFF_FFFF_FF67_B910, 0xFFFF_FFF6_7B13_8918,
    0xFFFF_FFFF_FF7B_621A, 0xFFFF_FFF7_B680_3A21, 0xFFFF_FFF7_B69A_2092, 0xFFFF_89A3_8A3A_27B6,
    0xFFFF_FFFF_FF72_6327, 0xFFFF_FFF0_2606_7807, 0xFFFF_FFF9_1073_2672, 0xFFFF_6788_9168_1261,
    0xFFFF_FFF7_3171_A67A, 0xFFFF_8017_81A7_167A, 0xFFFF_7A69_A0A7_0730, 0xFFFF_FFF9_A88A_7A67,
    0xFFFF_FFFF_FF68_B486, 0xFFFF_FFF6_4060_3B63, 0xFFFF_FFF1_0964_8B68, 0xFFFF_63B1_3936_9649,
    0xFFFF_FFF1_A28B_6486, 0xFFFF_640B_60B0_3A21, 0xFFFF_9A29_20B6_48B4, 0xF364_63B3_4923_A39A,
    0xFFFF_FFF2_6424_8328, 0xFFFF_FFFF_FF26_4240, 0xFFFF_8346_4243_2091, 0xFFFF_FFF6_4224_1491,
    0xFFFF_1A66_4816_8318, 0xFFFF_FFF4_0660_A01A, 0xF39A_9303_A683_4364, 0xFFFF_FFFF_FF4A_649A,
    0xFFFF_FFFF_FFB6_7594, 0xFFFF_FFF6_7B59_4380, 0xFFFF_FFFB_6704_5105, 0xFFFF_5134_5343_867B,
    0xFFFF_FFFB_6721_A459, 0xFFFF_5943_80A2_17B6, 0xFFFF_204A_24A4_5B67, 0xF67B_25A5_2345_3843,
    0xFFFF_FFF9_4526_7327, 0xFFFF_7862_6068_0459, 0xFFFF_0450_5167_3263, 0xF851_5848_1278_6826,
    0xFFFF_7316_7161_A459, 0xF459_0787_0167_1A61, 0xFA73_7A6A_305A_4A04, 0xFFFF_A84A_458A_7A67,
    0xFFFF_FFF9_8B9B_6596, 0xFFFF_5906_5036_0B63, 0xFFFF_B655_10B5_08B0, 0xFFFF_FFF1_3553_63B6,
    0xFFFF_65B8_B9B5_9A21, 0xFA21_9656_90B6_03B0, 0xF520_25A5_0865_B58B, 0xFFFF_35A3_A253_63B6,
    0xFFFF_2832_6582_5985, 0xFFFF_FFF2_6006_9659, 0xF826_2838_6508_1851, 0xFFFF_FFFF_FF61_2651,
    0xF698_9656_83A6_1631, 0xFFFF_0650_5960_A01A, 0xFFFF_FFFF_FFA6_5830, 0xFFFF_FFFF_FFFF_F65A,
    0xFFFF_FFFF_FFB5_7A5B, 0xFFFF_FFF0_3857_BA5B, 0xFFFF_FFF0_91BA_57B5, 0xFFFF_1381_897B_A57A,
    0xFFFF_FFF1_5717_B21B, 0xFFFF_B275_7172_1380, 0xFFFF_7B22_0972_9579, 0xF289_8232_95B2_7257,
    0xFFFF_FFF5_7353_2A52, 0xFFFF_52A5_7825_8028, 0xFFFF_2A37_353A_5109, 0xF257_52A2_7812_9289,
    0xFFFF_FFFF_FF57_3531, 0xFFFF_FFF5_7117_0780, 0xFFFF_FFF7_3553_9309, 0xFFFF_FFFF_FF79_5789,
    0xFFFF_FFF8_BA8A_5485, 0xFFFF_03BB_A50B_5405, 0xFFFF_54AB_A8A4_8910, 0xF413_1494_3B54_A4BA,
    0xFFFF_8548_B258_2152, 0xFB15_1B2B_543B_0B40, 0xF58B_8545_B295_0520, 0xFFFF_FFFF_FF3B_2549,
    0xFFFF_4835_4325_3A52, 0xFFFF_FFF0_2442_52A5, 0xF910_8545_83A5_32A3, 0xFFFF_2492_9142_52A5,
    0xFFFF_FFF1_5335_8548, 0xFFFF_FFFF_FF50_1540, 0xFFFF_5305_0935_8548, 0xFFFF_FFFF_FFFF_F549,
    0xFFFF_FFFB_A9B9_47B4, 0xFFFF_BA97_B979_4380, 0xFFFF_B470_414B_1BA1, 0xF4BA_B474_A184_3413,
    0xFFFF_219B_294B_97B4, 0xF380_1B2B_197B_9479, 0xFFFF_FFF0_4224_B47B, 0xFFFF_4234_3824_B47B,
    0xFFFF_9477_3297_2A92, 0xF702_0787_2A47_97A9, 0xFA04_0A1A_472A_3A73, 0xFFFF_FFFF_FF47_82A1,
    0xFFFF_FFF3_1771_4194, 0xFFFF_1781_8071_4194, 0xFFFF_FFFF_FF34_7304, 0xFFFF_FFFF_FFFF_F784,
    0xFFFF_FFFF_FF8B_A8A9, 0xFFFF_FFFA_9BB9_3903, 0xFFFF_FFFB_A88A_0A10, 0xFFFF_FFFF_FFA3_BA13,
    0xFFFF_FFF8_B99B_1B21, 0xFFFF_9B29_21B9_3903, 0xFFFF_FFFF_FFB0_8B20, 0xFFFF_FFFF_FFFF_FB23,
    0xFFFF_FFF9_8AA8_2832, 0xFFFF_FFFF_FF29_02A9, 0xFFFF_8A18_10A8_2832, 0xFFFF_FFFF_FFFF_F2A1,
    0xFFFF_FFFF_FF81_9831, 0xFFFF_FFFF_FFFF_F190, 0xFFFF_FFFF_FFFF_F830, 0xFFFF_FFFF_FFFF_FFFF,
];

/// Number of triangles that the triangulation table gives a configuration.
pub open spec fn triangle_count(config: u8) -> u8 {
    let row = triangulation_row(config);
    if row_entry(row, 0) == ROW_END {
        0u8
    } else if row_entry(row, 3) == ROW_END {
        1u8
    } else if row_entry(row, 6) == ROW_END {
        2u8
    } else if row_entry(row, 9) == ROW_END {
        3u8
    } else if row_entry(row, 12) == ROW_END {
        4u8
    } else {
        5u8
    }
}

/// The edges that the triangulation table names for a configuration, in
/// order: each run of three is one triangle.
pub open spec fn triangulation(config: u8) -> Seq<u8> {
    Seq::new(
        (3 * triangle_count(config)) as nat,
        |k: int| row_entry(triangulation_row(config), k as u8),
    )
}

/// Whether `edge` is one of the first fifteen entries of a row.
pub open spec fn row_names_edge(row: u64, edge: u8) -> bool {
    row_entry(row, 0) == edge || row_entry(row, 1) == edge || row_entry(row, 2) == edge
        || row_entry(row, 3) == edge || row_entry(row, 4) == edge || row_entry(row, 5) == edge
        || row_entry(row, 6) == edge || row_entry(row, 7) == edge || row_entry(row, 8) == edge
        || row_entry(row, 9) == edge || row_entry(row, 10) == edge || row_entry(row, 11) == edge
        || row_entry(row, 12) == edge || row_entry(row, 13) == edge || row_entry(row, 14)
        == edge
}

/// The edge table holds, for every configuration, exactly the edges whose
/// two ends lie on different sides of the surface.
#[verifier::rlimit(100)]
pub proof fn lemma_edge_table_holds_crossed_edges(config: u8, edge: u8)
    by (bit_vector)
    requires
        edge < 12,
    ensures
        mask_has_edge(edge_table(config), edge) == edge_crossed(config, edge),
        edge_table(config) < 0x1000,
{
}

/// A row holds edge numbers up to three times its triangle count, and
/// `ROW_END` from there on.
#[verifier::rlimit(100)]
pub proof fn lemma_row_shape(config: u8, k: u8)
    by (bit_vector)
    requires
        k < 16,
    ensures
        triangle_count(config) <= 5,
        k < 3 * triangle_count(config) ==> row_entry(triangulation_row(config), k) < 12,
        k >= 3 * triangle_count(config) ==> row_entry(triangulation_row(config), k) == 15,
{
}

/// Every edge that a row names is crossed by the surface in the row's
/// configuration.
#[verifier::rlimit(100)]
pub proof fn lemma_row_entry_crossed(config: u8, k: u8)
    by (bit_vector)
    requires
        k < 16,
        row_entry(triangulation_row(config), k) != 15,
    ensures
        edge_crossed(config, row_entry(triangulation_row(config), k)),
{
}

/// The three edges of a triangle differ from each other.
#[verifier::rlimit(100)]
pub proof fn lemma_row_triangle_distinct(config: u8, t: u8)
    by (bit_vector)
    requires
        t < triangle_count(config),
    ensures
        row_entry(triangulation_row(config), (3 * t) as u8) != row_entry(
            triangulation_row(config),
            (3 * t + 1) as u8,
        ),
        row_entry(triangulation_row(config), (3 * t) as u8) != row_entry(
            triangulation_row(config),
            (3 * t + 2) as u8,
        ),
        row_entry(triangulation_row(config), (3 * t + 1) as u8) != row_entry(
            triangulation_row(config),
            (3 * t + 2) as u8,
        ),
{
}

#[verifier::rlimit(100)]
proof fn lemma_row_triangle_faces_outward(config: u8, t: u8, a: u8, b: u8, c: u8)
    by (bit_vector)
    requires
        t < triangle_count(config),
        a == row_entry(triangulation_row(config), (3 * t) as u8),
        b == row_entry(triangulation_row(config), (3 * t + 1) as u8),
        c == row_entry(triangulation_row(config), (3 * t + 2) as u8),
    ensures
        faces_outward(config, a, b, c),
{
}

/// Every edge that the surface crosses in a configuration is named by the
/// configuration's row.
#[verifier::rlimit(100)]
pub proof fn lemma_crossed_edge_in_row(config: u8, edge: u8)
    by (bit_vector)
    requires
        edge < 12,
        edge_crossed(config, edge),
    ensures
        row_names_edge(triangulation_row(config), edge),
{
}

#[verifier::rlimit(100)]
proof fn lemma_single_corner_row(corner: u8)
    by (bit_vector)
    requires
        corner < 8,
    ensures
        triangle_count(1u8 << corner) == 1,
        edge_touches_corner(row_entry(triangulation_row(1u8 << corner), 0), corner),
        edge_touches_corner(row_entry(triangulation_row(1u8 << corner), 1), corner),
        edge_touches_corner(row_entry(triangulation_row(1u8 << corner), 2), corner),
{
}

proof fn lemma_single_corner_configuration(config: u8, corner: u8)
    by (bit_vector)
    requires
        corner < 8,
        corner_inside(config, 0) == (corner == 0),
        corner_inside(config, 1) == (corner == 1),
        corner_inside(config, 2) == (corner == 2),
        corner_inside(config, 3) == (corner == 3),
        corner_inside(config, 4) == (corner == 4),
        corner_inside(config, 5) == (corner == 5),
        corner_inside(config, 6) == (corner == 6),
        corner_inside(config, 7) == (corner == 7),
    ensures
        config == 1u8 << corner,
{
}

#[verifier::rlimit(100)]
proof fn lemma_uniform_configuration(config: u8)
    by (bit_vector)
    requires
        corner_inside(config, 0) == corner_inside(config, 1),
        corner_inside(config, 0) == corner_inside(config, 2),
        corner_inside(config, 0) == corner_inside(config, 3),
        corner_inside(config, 0) == corner_inside(config, 4),
        corner_inside(config, 0) == corner_inside(config, 5),
        corner_inside(config, 0) == corner_inside(config, 6),
        corner_inside(config, 0) == corner_inside(config, 7),
    ensures
        config == 0x00 || config == 0xFF,
        triangle_count(0x00) == 0,
        triangle_count(0xFF) == 0,
        edge_table(0x00) == 0,
        edge_table(0xFF) == 0,
{
}

/// The edge set of a configuration: a mask whose bit `e` is set exactly when
/// the surface crosses edge `e`.
pub fn intersected_edges(config: u8) -> (mask: u16)
    ensures
        mask == edge_table(config),
        mask < 0x1000,
        forall|edge: u8|
            edge < EDGE_COUNT ==> (#[trigger] mask_has_edge(mask, edge) <==> edge_crossed(
                config,
                edge,
            )),
{
    proof {
        assert forall|edge: u8| edge < EDGE_COUNT implies (#[trigger] mask_has_edge(
            edge_table(config),
            edge,
        ) <==> edge_crossed(config, edge)) by {
            lemma_edge_table_holds_crossed_edges(config, edge);
        }
        lemma_edge_table_holds_crossed_edges(config, 0);
    }
    EDGE_TABLE[config as usize]
}

/// Whether an edge set has `edge` in it.
pub fn edge_in_mask(mask: u16, edge: u8) -> (found: bool)
    requires
        edge < EDGE_COUNT,
    ensures
        found == mask_has_edge(mask, edge),
{
    (mask >> edge) & 1 == 1
}

/// The edges of a configuration's triangles, in the table's order: each run
/// of three is one triangle.
pub fn triangulation_edges(config: u8) -> (edges: Vec<u8>)
    ensures
        edges@ == triangulation(config),
{
    let row = TRIANGULATION_TABLE[config as usize];
    let mut edges: Vec<u8> = Vec::new();
    let mut k: u8 = 0;
    proof {
        assert forall|j: u8| j < 16 implies (j < 3 * triangle_count(config) ==> #[trigger] row_entry(
            row,
            j,
        ) < 12) && (j >= 3 * triangle_count(config) ==> row_entry(row, j) == 15) by {
            lemma_row_shape(config, j);
        }
        lemma_row_shape(config, 0);
    }
    while k < 15
        invariant
            k <= 15,
            row == triangulation_row(config),
            triangle_count(config) <= 5,
            edges@.len() == k,
            k <= 3 * triangle_count(config),
            forall|j: int| 0 <= j < k ==> edges@[j] == row_entry(row, j as u8),
            forall|j: u8|
                j < 16 ==> (j < 3 * triangle_count(config) ==> #[trigger] row_entry(row, j) < 12)
                    && (j >= 3 * triangle_count(config) ==> row_entry(row, j) == 15),
        ensures
            edges@.len() == 3 * triangle_count(config),
            forall|j: int| 0 <= j < edges@.len() ==> edges@[j] == row_entry(row, j as u8),
        decreases 15 - k,
    {
        let shifted: u64 = row >> (4 * k);
        assert(shifted & 0xF <= 15) by (bit_vector);
        let entry: u8 = (shifted & 0xF) as u8;
        assert(entry == row_entry(row, k));
        if entry == ROW_END {
            break ;
        }
        edges.push(entry);
        k = k + 1;
    }
    assert(edges@ =~= triangulation(config));
    edges
}

/// The two tables agree: every edge that the triangulation table names for a
/// configuration is in the edge set that the edge table gives that
/// configuration, and so is crossed by the surface.
pub proof fn lemma_table_consistency(config: u8, k: int)
    requires
        0 <= k < triangulation(config).len(),
    ensures
        triangulation(config)[k] < EDGE_COUNT,
        mask_has_edge(edge_table(config), triangulation(config)[k]),
        edge_crossed(config, triangulation(config)[k]),
{
    lemma_row_shape(config, k as u8);
    lemma_row_entry_crossed(config, k as u8);
    lemma_edge_table_holds_crossed_edges(config, triangulation(config)[k]);
}

/// Every edge that the surface crosses in a cube is named by the cube's
/// triangulation.
pub proof fn lemma_crossed_edges_triangulated(config: u8, edge: u8)
    requires
        edge < EDGE_COUNT,
        edge_crossed(config, edge),
    ensures
        triangulation(config).contains(edge),
{
    lemma_crossed_edge_in_row(config, edge);
    let row = triangulation_row(config);
    let k: u8 = if row_entry(row, 0) == edge {
        0
    } else if row_entry(row, 1) == edge {
        1
    } else if row_entry(row, 2) == edge {
        2
    } else if row_entry(row, 3) == edge {
        3
    } else if row_entry(row, 4) == edge {
        4
    } else if row_entry(row, 5) == edge {
        5
    } else if row_entry(row, 6) == edge {
        6
    } else if row_entry(row, 7) == edge {
        7
    } else if row_entry(row, 8) == edge {
        8
    } else if row_entry(row, 9) == edge {
        9
    } else if row_entry(row, 10) == edge {
        10
    } else if row_entry(row, 11) == edge {
        11
    } else if row_entry(row, 12) == edge {
        12
    } else if row_entry(row, 13) == edge {
        13
    } else {
        14
    };
    lemma_row_shape(config, k);
    assert(triangulation(config)[k as int] == edge);
}

/// The number of edges named for a configuration is three times its
/// triangle count, at most fifteen, and the three edges of each triangle
/// differ.
pub proof fn lemma_triangulation_shape(config: u8)
    ensures
        triangulation(config).len() == 3 * triangle_count(config),
        triangle_count(config) <= 5,
        forall|t: int|
            0 <= t < triangle_count(config) ==> {
                &&& #[trigger] triangulation(config)[3 * t] != triangulation(config)[3 * t + 1]
                &&& triangulation(config)[3 * t] != triangulation(config)[3 * t + 2]
                &&& triangulation(config)[3 * t + 1] != triangulation(config)[3 * t + 2]
            },
{
    lemma_row_shape(config, 0);
    assert forall|t: int| 0 <= t < triangle_count(config) implies {
        &&& #[trigger] triangulation(config)[3 * t] != triangulation(config)[3 * t + 1]
        &&& triangulation(config)[3 * t] != triangulation(config)[3 * t + 2]
        &&& triangulation(config)[3 * t + 1] != triangulation(config)[3 * t + 2]
    } by {
        lemma_row_triangle_distinct(config, t as u8);
    }
}

/// Every triangle of a configuration faces from the inside of the surface
/// to the outside.
pub proof fn lemma_triangles_face_outward(config: u8, t: int)
    requires
        0 <= t < triangle_count(config),
    ensures
        3 * t + 2 < triangulation(config).len(),
        faces_outward(
            config,
            triangulation(config)[3 * t],
            triangulation(config)[3 * t + 1],
            triangulation(config)[3 * t + 2],
        ),
{
    lemma_row_shape(config, 0);
    let row = triangulation_row(config);
    lemma_row_triangle_faces_outward(
        config,
        t as u8,
        row_entry(row, (3 * t) as u8),
        row_entry(row, (3 * t + 1) as u8),
        row_entry(row, (3 * t + 2) as u8),
    );
}

/// A cube whose corners all lie on one side of the surface
/// gets no triangle.
pub proof fn lemma_trivial_cubes(config: u8)
    requires
        forall|corner: u8|
            corner < CORNER_COUNT ==> #[trigger] corner_inside(config, corner) == corner_inside(
                config,
                0,
            ),
    ensures
        config == 0x00 || config == 0xFF,
        triangulation(config).len() == 0,
        edge_table(config) == 0,
{
    assert(corner_inside(config, 1) == corner_inside(config, 0));
    assert(corner_inside(config, 2) == corner_inside(config, 0));
    assert(corner_inside(config, 3) == corner_inside(config, 0));
    assert(corner_inside(config, 4) == corner_inside(config, 0));
    assert(corner_inside(config, 5) == corner_inside(config, 0));
    assert(corner_inside(config, 6) == corner_inside(config, 0));
    assert(corner_inside(config, 7) == corner_inside(config, 0));
    lemma_uniform_configuration(config);
}

/// A cube with exactly one corner inside the surface
/// gets exactly one triangle, built from the three edges that meet at that
/// corner.
pub proof fn lemma_single_corner(config: u8, corner: u8)
    requires
        corner < CORNER_COUNT,
        forall|other: u8|
            other < CORNER_COUNT ==> #[trigger] corner_inside(config, other) == (other == corner),
    ensures
        triangulation(config).len() == 3,
        forall|k: int| 0 <= k < 3 ==> edge_touches_corner(#[trigger] triangulation(config)[k], corner),
        triangulation(config)[0] != triangulation(config)[1],
        triangulation(config)[0] != triangulation(config)[2],
        triangulation(config)[1] != triangulation(config)[2],
{
    assert(corner_inside(config, 0) == (0 == corner));
    assert(corner_inside(config, 1) == (1 == corner));
    assert(corner_inside(config, 2) == (2 == corner));
    assert(corner_inside(config, 3) == (3 == corner));
    assert(corner_inside(config, 4) == (4 == corner));
    assert(corner_inside(config, 5) == (5 == corner));
    assert(corner_inside(config, 6) == (6 == corner));
    assert(corner_inside(config, 7) == (7 == corner));
    lemma_single_corner_configuration(config, corner);
    lemma_single_corner_row(corner);
    lemma_triangulation_shape(config);
    assert(triangulation(config)[3 * 0int] != triangulation(config)[3 * 0int + 1]);
}

} // verus!
