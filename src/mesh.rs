//! Building meshes out of boxes, optionally clipped to a rectangle.
use vstd::prelude::*;
use crate::gfx::{Color, Point, Rectangle, Vertex, COORD_MAX, coord_ok};
use crate::fixed::div_trunc;

verus! {


/// The indices `idx` shifted past `base` existing vertices.
pub open spec fn shifted(idx: Seq<u16>, base: int) -> Seq<u16> {
    idx.map_values(|i: u16| (i + base) as u16)
}

/// `a + (b - a) * num / den`, the division rounding toward zero.
pub open spec fn lerp(a: int, b: int, num: int, den: int) -> int {
    a + div_trunc((b - a) * num, den)
}

/// The four corners of `r` with texture coordinates from `uv`: top left,
/// top right, bottom left, bottom right.
pub open spec fn quad(r: Rectangle, color: Color, uv: Rectangle) -> Seq<Vertex> {
    let (x1, y1, x2, y2) = (r.x, r.y, (r.x + r.w) as i64, (r.y + r.h) as i64);
    let (u1, v1, u2, v2) = (uv.x, uv.y, (uv.x + uv.w) as i64, (uv.y + uv.h) as i64);
    seq![
        Vertex { pos: Point { x: x1, y: y1 }, color, uv: Point { x: u1, y: v1 } },
        Vertex { pos: Point { x: x2, y: y1 }, color, uv: Point { x: u2, y: v1 } },
        Vertex { pos: Point { x: x1, y: y2 }, color, uv: Point { x: u1, y: v2 } },
        Vertex { pos: Point { x: x2, y: y2 }, color, uv: Point { x: u2, y: v2 } },
    ]
}

/// The part of `uv` that maps onto `clipped` when all of `uv` maps onto `obj`.
pub open spec fn clip_uv(obj: Rectangle, clipped: Rectangle, uv: Rectangle) -> Rectangle {
    let u1 = lerp(uv.x as int, uv.x + uv.w, clipped.x - obj.x, obj.w as int);
    let u2 = lerp(uv.x as int, uv.x + uv.w, clipped.x + clipped.w - obj.x, obj.w as int);
    let v1 = lerp(uv.y as int, uv.y + uv.h, clipped.y - obj.y, obj.h as int);
    let v2 = lerp(uv.y as int, uv.y + uv.h, clipped.y + clipped.h - obj.y, obj.h as int);
    Rectangle { x: u1 as i64, y: v1 as i64, w: (u2 - u1) as i64, h: (v2 - v1) as i64 }
}

/// The two triangles of a quad.
pub open spec fn quad_indices() -> Seq<u16> {
    seq![0u16, 2, 1, 1, 2, 3]
}

/// The rectangle a box is drawn as, after clipping; `None` where nothing
/// of it is left.
pub open spec fn clipped_box(clipper: Option<Rectangle>, obj: Rectangle) -> Option<Rectangle> {
    match clipper {
        Some(c) => c.clip_spec(obj),
        None => Some(obj),
    }
}

/// The vertices that drawing `obj` adds.
pub open spec fn box_verts(clipper: Option<Rectangle>, obj: Rectangle, color: Color, uv: Rectangle) -> Seq<Vertex> {
    match clipped_box(clipper, obj) {
        None => seq![],
        Some(r) => quad(r, color, if clipper is Some { clip_uv(obj, r, uv) } else { uv }),
    }
}

/// The indices that drawing `obj` adds after `base` vertices.
pub open spec fn box_indices(clipper: Option<Rectangle>, obj: Rectangle, base: int) -> Seq<u16> {
    match clipped_box(clipper, obj) {
        None => seq![],
        Some(_) => shifted(quad_indices(), base),
    }
}

/// Whether a box `r` and its texture rectangle `uv` may be drawn without
/// leaving the coordinate range.
pub open spec fn box_ok(r: Rectangle, uv: Rectangle) -> bool {
    &&& r.bounded()
    &&& uv.bounded()
    &&& coord_ok(r.x + r.w)
    &&& coord_ok(r.y + r.h)
    &&& coord_ok(uv.x + uv.w)
    &&& coord_ok(uv.y + uv.h)
}

/// The four sides of an outline of `obj` that is `t` thick: top, left,
/// right, bottom.
pub open spec fn outline_sides(obj: Rectangle, t: i64) -> Seq<Rectangle> {
    let x2 = obj.x + obj.w;
    let y2 = obj.y + obj.h;
    seq![
        Rectangle { x: obj.x, y: obj.y, w: obj.w, h: t },
        Rectangle { x: obj.x, y: obj.y, w: t, h: obj.h },
        Rectangle { x: (x2 - t) as i64, y: obj.y, w: t, h: obj.h },
        Rectangle { x: obj.x, y: (y2 - t) as i64, w: obj.w, h: t },
    ]
}

/// The texture rectangle of untextured boxes.
pub open spec fn no_uv() -> Rectangle {
    Rectangle { x: 0, y: 0, w: 0, h: 0 }
}

/// Accumulates vertices and triangle indices for one mesh.
pub struct MeshBuilder {
    pub verts: Vec<Vertex>,
    pub indices: Vec<u16>,
    pub clipper: Option<Rectangle>,
}

proof fn lemma_lerp_bound(a: int, b: int, num: int, den: int)
    requires
        coord_ok(a),
        coord_ok(b),
        0 <= num <= den,
        den > 0,
    ensures
        -2 * COORD_MAX <= div_trunc((b - a) * num, den) <= 2 * COORD_MAX,
{
    let d = b - a;
    let p = d * num;
    assert(-2 * COORD_MAX <= d <= 2 * COORD_MAX);
    assert(crate::fixed::abs(p) <= crate::fixed::abs(d) * den) by (nonlinear_arith)
        requires p == d * num, 0 <= num <= den;
    let q = crate::fixed::abs(p) / crate::fixed::abs(den);
    assert(q <= crate::fixed::abs(d)) by (nonlinear_arith)
        requires q == crate::fixed::abs(p) / crate::fixed::abs(den), crate::fixed::abs(p) <= crate::fixed::abs(d) * den,
            den > 0, crate::fixed::abs(den) == den;
}

fn lerp_exec(a: i64, b: i64, num: i64, den: i64) -> (r: i64)
    requires
        coord_ok(a as int),
        coord_ok(b as int),
        0 <= num <= den,
        den > 0,
        den <= 2 * COORD_MAX,
    ensures
        r == lerp(a as int, b as int, num as int, den as int),
        -3 * COORD_MAX <= r <= 3 * COORD_MAX,
{
    proof {
        lemma_lerp_bound(a as int, b as int, num as int, den as int);
    }
    let d = (b - a) as i128;
    assert(-0x1_0000_0000_0000_0000_0000_0000 < d * (num as i128) < 0x1_0000_0000_0000_0000_0000_0000)
        by (nonlinear_arith)
        requires -0x200_0000_0000 <= d <= 0x200_0000_0000, 0 <= num <= 0x200_0000_0000;
    let p: i128 = d * (num as i128);
    let ua: u128 = if p < 0 { (-p) as u128 } else { p as u128 };
    let q: u128 = ua / (den as u128);
    let t: i128 = if p < 0 { -(q as i128) } else { q as i128 };
    (a as i128 + t) as i64
}

impl MeshBuilder {
    pub open spec fn wf(&self) -> bool {
        self.clipper matches Some(c) ==> c.bounded()
    }

    pub fn new() -> (r: MeshBuilder)
        ensures
            r.wf(),
            r.verts@.len() == 0,
            r.indices@.len() == 0,
            r.clipper is None,
    {
        MeshBuilder { verts: Vec::new(), indices: Vec::new(), clipper: None }
    }

    /// A builder whose boxes are clipped to `clipper`.
    pub fn with_clip(clipper: Rectangle) -> (r: MeshBuilder)
        ensures
            r.verts@.len() == 0,
            r.indices@.len() == 0,
            r.clipper == Some(clipper),
    {
        MeshBuilder { verts: Vec::new(), indices: Vec::new(), clipper: Some(clipper) }
    }

    /// Adds vertices and indices into them, shifting the indices past the
    /// vertices already present.
    pub fn append(&mut self, verts: Vec<Vertex>, indices: Vec<u16>)
        requires
            forall|k: int| 0 <= k < indices@.len() ==> indices@[k] + old(self).verts@.len() <= u16::MAX,
        ensures
            final(self).verts@ == old(self).verts@ + verts@,
            final(self).indices@ == old(self).indices@ + shifted(indices@, old(self).verts@.len() as int),
            final(self).clipper == old(self).clipper,
    {
        let base = self.verts.len();
        let ghost idx0 = self.indices@;
        let mut k: usize = 0;
        while k < indices.len()
            invariant
                base == old(self).verts@.len(),
                self.verts@ == old(self).verts@,
                self.clipper == old(self).clipper,
                k <= indices@.len(),
                forall|j: int| 0 <= j < indices@.len() ==> indices@[j] + base <= u16::MAX,
                self.indices@ == idx0 + shifted(indices@.subrange(0, k as int), base as int),
            decreases indices@.len() - k,
        {
            let i = indices[k] + base as u16;
            self.indices.push(i);
            k += 1;
            assert(shifted(indices@.subrange(0, k as int), base as int)
                =~= shifted(indices@.subrange(0, k - 1), base as int).push(i));
        }
        assert(indices@.subrange(0, indices@.len() as int) =~= indices@);
        let mut k: usize = 0;
        while k < verts.len()
            invariant
                self.verts@ == old(self).verts@ + verts@.subrange(0, k as int),
                self.indices@ == idx0 + shifted(indices@, base as int),
                self.clipper == old(self).clipper,
                k <= verts@.len(),
            decreases verts@.len() - k,
        {
            self.verts.push(verts[k]);
            k += 1;
            assert(verts@.subrange(0, k as int) =~= verts@.subrange(0, k - 1).push(verts@[k - 1]));
        }
        assert(verts@.subrange(0, verts@.len() as int) =~= verts@);
    }

    /// Adds a box filled with `color`, textured with `uv`. With a clipper,
    /// only the overlap is drawn, with the matching part of `uv`.
    pub fn draw_box(&mut self, obj: &Rectangle, color: Color, uv: &Rectangle)
        requires
            old(self).wf(),
            box_ok(*obj, *uv),
            old(self).verts@.len() + 3 <= u16::MAX,
        ensures
            final(self).wf(),
            final(self).clipper == old(self).clipper,
            final(self).verts@ == old(self).verts@ + box_verts(old(self).clipper, *obj, color, *uv),
            final(self).indices@ == old(self).indices@
                + box_indices(old(self).clipper, *obj, old(self).verts@.len() as int),
    {
        let clipped = match self.clipper {
            Some(c) => match c.clip(obj) {
                Some(r) => r,
                None => {
                    assert(self.verts@ + Seq::<Vertex>::empty() =~= self.verts@);
                    assert(self.indices@ + Seq::<u16>::empty() =~= self.indices@);
                    return;
                },
            },
            None => *obj,
        };
        let uv2 = if self.clipper.is_some() {
            let u1 = lerp_exec(uv.x, uv.x + uv.w, clipped.x - obj.x, obj.w);
            let u2 = lerp_exec(uv.x, uv.x + uv.w, clipped.x + clipped.w - obj.x, obj.w);
            let v1 = lerp_exec(uv.y, uv.y + uv.h, clipped.y - obj.y, obj.h);
            let v2 = lerp_exec(uv.y, uv.y + uv.h, clipped.y + clipped.h - obj.y, obj.h);
            Rectangle { x: u1, y: v1, w: u2 - u1, h: v2 - v1 }
        } else {
            *uv
        };
        let x1 = clipped.x;
        let y1 = clipped.y;
        let x2 = clipped.x + clipped.w;
        let y2 = clipped.y + clipped.h;
        let u1 = uv2.x;
        let v1 = uv2.y;
        let u2 = uv2.x + uv2.w;
        let v2 = uv2.y + uv2.h;
        let mut verts: Vec<Vertex> = Vec::new();
        verts.push(Vertex { pos: Point { x: x1, y: y1 }, color, uv: Point { x: u1, y: v1 } });
        verts.push(Vertex { pos: Point { x: x2, y: y1 }, color, uv: Point { x: u2, y: v1 } });
        verts.push(Vertex { pos: Point { x: x1, y: y2 }, color, uv: Point { x: u1, y: v2 } });
        verts.push(Vertex { pos: Point { x: x2, y: y2 }, color, uv: Point { x: u2, y: v2 } });
        let mut indices: Vec<u16> = Vec::new();
        indices.push(0);
        indices.push(2);
        indices.push(1);
        indices.push(1);
        indices.push(2);
        indices.push(3);
        assert(verts@ =~= quad(clipped, color, uv2));
        assert(indices@ =~= quad_indices());
        self.append(verts, indices);
    }

    /// Adds the outline of `obj`, `thickness` thick, as four untextured boxes.
    pub fn draw_outline(&mut self, obj: &Rectangle, color: Color, thickness: i64)
        requires
            old(self).wf(),
            coord_ok(obj.x + obj.w),
            coord_ok(obj.y + obj.h),
            forall|k: int| 0 <= k < 4 ==> box_ok(#[trigger] outline_sides(*obj, thickness)[k], no_uv()),
            old(self).verts@.len() + 15 <= u16::MAX,
        ensures
            final(self).wf(),
            final(self).clipper == old(self).clipper,
            ({
                let c = old(self).clipper;
                let s = outline_sides(*obj, thickness);
                let n = old(self).verts@.len() as int;
                let b0 = box_verts(c, s[0], color, no_uv());
                let b1 = box_verts(c, s[1], color, no_uv());
                let b2 = box_verts(c, s[2], color, no_uv());
                let b3 = box_verts(c, s[3], color, no_uv());
                &&& final(self).verts@ == old(self).verts@ + b0 + b1 + b2 + b3
                &&& final(self).indices@ == old(self).indices@
                    + box_indices(c, s[0], n)
                    + box_indices(c, s[1], n + b0.len())
                    + box_indices(c, s[2], n + b0.len() + b1.len())
                    + box_indices(c, s[3], n + b0.len() + b1.len() + b2.len())
            }),
    {
        let ghost sides = outline_sides(*obj, thickness);
        assert(box_ok(sides[0], no_uv()));
        assert(box_ok(sides[1], no_uv()));
        assert(box_ok(sides[2], no_uv()));
        assert(box_ok(sides[3], no_uv()));
        let uv = Rectangle { x: 0, y: 0, w: 0, h: 0 };
        let x2 = obj.x + obj.w;
        let y2 = obj.y + obj.h;
        let top = Rectangle { x: obj.x, y: obj.y, w: obj.w, h: thickness };
        let left = Rectangle { x: obj.x, y: obj.y, w: thickness, h: obj.h };
        let right = Rectangle { x: x2 - thickness, y: obj.y, w: thickness, h: obj.h };
        let bottom = Rectangle { x: obj.x, y: y2 - thickness, w: obj.w, h: thickness };
        assert(top == sides[0] && left == sides[1] && right == sides[2] && bottom == sides[3]);
        self.draw_box(&top, color, &uv);
        self.draw_box(&left, color, &uv);
        self.draw_box(&right, color, &uv);
        self.draw_box(&bottom, color, &uv);
    }
}

} // verus!
