//! The two demo cubes the scene renderer starts with: 48 corners, four per
//! face, and 72 indices, two triangles per face. Corners are given by the
//! sign of each coordinate around their cube's center; the caller scales
//! them to a quarter unit and moves the second cube one unit along x.
use vstd::prelude::*;

verus! {

/// The color of a cube face; the faces come in this order.
#[derive(Clone, Copy, PartialEq, Eq, Structural, Debug)]
pub enum FaceColor {
    Magenta,
    Green,
    Yellow,
    Blue,
    Cyan,
    Red,
}

/// A corner of one of the two cubes: the cube it belongs to (0 or 1), the
/// sign (-1 or 1) of each coordinate around the cube's center, and the color
/// of its face.
#[derive(Clone, Copy, PartialEq, Eq, Structural, Debug)]
pub struct CubeCorner {
    pub cube: u8,
    pub x: i8,
    pub y: i8,
    pub z: i8,
    pub color: FaceColor,
}

/// The color of face `face` (0 to 5).
pub open spec fn face_color(face: int) -> FaceColor {
    if face == 0 {
        FaceColor::Magenta
    } else if face == 1 {
        FaceColor::Green
    } else if face == 2 {
        FaceColor::Yellow
    } else if face == 3 {
        FaceColor::Blue
    } else if face == 4 {
        FaceColor::Cyan
    } else {
        FaceColor::Red
    }
}

/// The red, green and blue channels of a face color, each 0 or 1.
pub open spec fn rgb(color: FaceColor) -> (u8, u8, u8) {
    match color {
        FaceColor::Magenta => (1, 0, 1),
        FaceColor::Green => (0, 1, 0),
        FaceColor::Yellow => (1, 1, 0),
        FaceColor::Blue => (0, 0, 1),
        FaceColor::Cyan => (0, 1, 1),
        FaceColor::Red => (1, 0, 0),
    }
}

/// The signs of corner `k` (0 to 3) of face `face`: the face lies in the
/// plane y = -1, y = 1, z = -1, z = 1, x = -1 or x = 1, and its corners go
/// through the other two coordinates, the faster one first.
pub open spec fn corner_signs(face: int, k: int) -> (i8, i8, i8) {
    let fast: i8 = if k % 2 == 0 {
        -1i8
    } else {
        1i8
    };
    let slow: i8 = if k / 2 == 0 {
        -1i8
    } else {
        1i8
    };
    if face == 0 {
        (fast, -1i8, slow)
    } else if face == 1 {
        (slow, 1i8, fast)
    } else if face == 2 {
        (slow, fast, -1i8)
    } else if face == 3 {
        (fast, slow, 1i8)
    } else if face == 4 {
        (-1i8, slow, fast)
    } else {
        (1i8, fast, slow)
    }
}

/// Corner `i` of the 48: cube `i / 24`, face `(i % 24) / 4`, corner `i % 4`.
pub open spec fn corner(i: int) -> CubeCorner {
    let face = (i % 24) / 4;
    let signs = corner_signs(face, i % 4);
    CubeCorner { cube: (i / 24) as u8, x: signs.0, y: signs.1, z: signs.2, color: face_color(face) }
}

/// The position within a face of the corners of its two triangles.
pub open spec fn triangle_corner(j: int) -> int {
    if j == 0 {
        0
    } else if j == 1 {
        1
    } else if j == 2 {
        2
    } else if j == 3 {
        3
    } else if j == 4 {
        2
    } else {
        1
    }
}

/// Index `i` of the 72: the face `i / 6` and, within it, the corner of the
/// triangles `(0, 1, 2)` and `(3, 2, 1)` at position `i % 6`.
pub open spec fn index(i: int) -> int {
    4 * (i / 6) + triangle_corner(i % 6)
}

fn face_color_of(face: usize) -> (res: FaceColor)
    ensures
        res == face_color(face as int),
{
    if face == 0 {
        FaceColor::Magenta
    } else if face == 1 {
        FaceColor::Green
    } else if face == 2 {
        FaceColor::Yellow
    } else if face == 3 {
        FaceColor::Blue
    } else if face == 4 {
        FaceColor::Cyan
    } else {
        FaceColor::Red
    }
}

/// The red, green and blue channels of a face color, each 0 or 1.
pub fn color_channels(color: FaceColor) -> (res: (u8, u8, u8))
    ensures
        res == rgb(color),
{
    match color {
        FaceColor::Magenta => (1, 0, 1),
        FaceColor::Green => (0, 1, 0),
        FaceColor::Yellow => (1, 1, 0),
        FaceColor::Blue => (0, 0, 1),
        FaceColor::Cyan => (0, 1, 1),
        FaceColor::Red => (1, 0, 0),
    }
}

fn signs_of(face: usize, k: usize) -> (res: (i8, i8, i8))
    requires
        k < 4,
    ensures
        res == corner_signs(face as int, k as int),
{
    let fast: i8 = if k % 2 == 0 {
        -1
    } else {
        1
    };
    let slow: i8 = if k / 2 == 0 {
        -1
    } else {
        1
    };
    if face == 0 {
        (fast, -1, slow)
    } else if face == 1 {
        (slow, 1, fast)
    } else if face == 2 {
        (slow, fast, -1)
    } else if face == 3 {
        (fast, slow, 1)
    } else if face == 4 {
        (-1, slow, fast)
    } else {
        (1, fast, slow)
    }
}

/// The 48 corners of the two cubes, in order.
pub fn cube_corners() -> (res: Vec<CubeCorner>)
    ensures
        res@.len() == 48,
        forall|i: int| 0 <= i < 48 ==> #[trigger] res@[i] == corner(i),
{
    let mut res: Vec<CubeCorner> = Vec::new();
    let mut i: usize = 0;
    while i < 48
        invariant
            i <= 48,
            res@.len() == i,
            forall|j: int| 0 <= j < i ==> #[trigger] res@[j] == corner(j),
        decreases 48 - i,
    {
        let face = (i % 24) / 4;
        let signs = signs_of(face, i % 4);
        res.push(
            CubeCorner {
                cube: (i / 24) as u8,
                x: signs.0,
                y: signs.1,
                z: signs.2,
                color: face_color_of(face),
            },
        );
        i = i + 1;
    }
    res
}

/// The 72 indices of the two cubes' triangles, in order.
pub fn cube_indices() -> (res: Vec<u16>)
    ensures
        res@.len() == 72,
        forall|i: int| 0 <= i < 72 ==> #[trigger] res@[i] == index(i),
{
    let mut res: Vec<u16> = Vec::new();
    let mut face: u16 = 0;
    while face < 12
        invariant
            face <= 12,
            res@.len() == 6 * face,
            forall|j: int| 0 <= j < res@.len() ==> #[trigger] res@[j] == index(j),
        decreases 12 - face,
    {
        let base = 4 * face;
        let ghost start = res@.len() as int;
        res.push(base);
        res.push(base + 1);
        res.push(base + 2);
        res.push(base + 3);
        res.push(base + 2);
        res.push(base + 1);
        assert forall|j: int| 0 <= j < res@.len() implies #[trigger] res@[j] == index(j) by {
            if j >= start {
                assert((j - start) == j % 6 && j / 6 == face) by (nonlinear_arith)
                    requires
                        start == 6 * face,
                        start <= j < start + 6,
                ;
            }
        }
        face = face + 1;
    }
    res
}

/// Every index names a corner of the two cubes, and the three corners of
/// each triangle belong to the face the triangle draws.
pub proof fn lemma_indices_stay_on_their_face(i: int)
    requires
        0 <= i < 72,
    ensures
        0 <= index(i) < 48,
        index(i) / 4 == i / 6,
        corner(index(i)).color == face_color((i / 6) % 6),
        corner(index(i)).cube == i / 36,
{
    let f = i / 6;
    let t = triangle_corner(i % 6);
    assert(0 <= t < 4);
    assert(index(i) / 4 == f) by (nonlinear_arith)
        requires
            index(i) == 4 * f + t,
            0 <= t < 4,
    ;
    assert(index(i) % 24 / 4 == f % 6 && index(i) / 24 == f / 6) by (nonlinear_arith)
        requires
            index(i) == 4 * f + t,
            0 <= t < 4,
            0 <= f,
    ;
    assert(f / 6 == i / 36) by (nonlinear_arith)
        requires
            f == i / 6,
            0 <= i,
    ;
}

/// Each face is flat: its four corners share the coordinate that the face
/// is perpendicular to, and they are four different corners.
pub proof fn lemma_faces_flat_and_distinct(face: int, k1: int, k2: int)
    requires
        0 <= face < 6,
        0 <= k1 < 4,
        0 <= k2 < 4,
    ensures
        face == 0 ==> corner_signs(face, k1).1 == -1,
        face == 1 ==> corner_signs(face, k1).1 == 1,
        face == 2 ==> corner_signs(face, k1).2 == -1,
        face == 3 ==> corner_signs(face, k1).2 == 1,
        face == 4 ==> corner_signs(face, k1).0 == -1,
        face == 5 ==> corner_signs(face, k1).0 == 1,
        k1 != k2 ==> corner_signs(face, k1) != corner_signs(face, k2),
{
}

} // verus!
