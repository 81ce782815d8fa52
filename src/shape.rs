//! Vector shapes whose vertex positions are programs of the width and
//! height they are drawn at.
use vstd::prelude::*;
use crate::expr::{Program, EvalError, EnvModel, eval_program, evaluate, copy_program};
use crate::gfx::{Color, Point, Vertex};
use crate::mesh::{shifted, quad_indices};

verus! {

/// A vertex whose position is computed at draw time.
#[derive(Debug)]
pub struct ShapeVertex {
    pub x: Program,
    pub y: Program,
    pub color: Color,
}

/// The result of `rest`, with `pre` in front where it succeeds.
pub open spec fn prefixed(pre: Seq<Vertex>, rest: Result<Seq<Vertex>, EvalError>) -> Result<Seq<Vertex>, EvalError> {
    match rest {
        Ok(r) => Ok(pre + r),
        Err(e) => Err(e),
    }
}

/// The vertices of a shape in an environment, or the first failure, each
/// vertex's x before its y.
pub open spec fn eval_vertices(vs: Seq<ShapeVertex>, env: EnvModel) -> Result<Seq<Vertex>, EvalError>
    decreases vs.len(),
{
    if vs.len() == 0 {
        Ok(seq![])
    } else {
        match eval_program(vs[0].x, env) {
            Err(e) => Err(e),
            Ok(x) => match eval_program(vs[0].y, env) {
                Err(e) => Err(e),
                Ok(y) => prefixed(
                    seq![Vertex { pos: Point { x, y }, color: vs[0].color, uv: Point { x: 0, y: 0 } }],
                    eval_vertices(vs.skip(1), env),
                ),
            },
        }
    }
}

/// Whether `a` evaluates as `b` in every environment: same programs, same color.
pub open spec fn same_vertex(a: ShapeVertex, b: ShapeVertex) -> bool {
    &&& a.x.binds@ == b.x.binds@
    &&& a.x.result == b.x.result
    &&& a.y.binds@ == b.y.binds@
    &&& a.y.result == b.y.result
    &&& a.color == b.color
}

#[derive(Debug)]
pub struct VectorShape {
    pub verts: Vec<ShapeVertex>,
    pub indices: Vec<u16>,
}

impl VectorShape {
    pub fn new() -> (r: VectorShape)
        ensures
            r.verts@.len() == 0,
            r.indices@.len() == 0,
    {
        VectorShape { verts: Vec::new(), indices: Vec::new() }
    }

    /// Adds a box from corner (x1, y1) to corner (x2, y2) filled with `color`:
    /// four vertices (top left, top right, bottom left, bottom right) and two
    /// triangles over them.
    pub fn add_filled_box(&mut self, x1: Program, y1: Program, x2: Program, y2: Program, color: Color)
        requires
            old(self).verts@.len() + 3 <= u16::MAX,
        ensures
            final(self).verts@.len() == old(self).verts@.len() + 4,
            forall|k: int| 0 <= k < old(self).verts@.len() ==> final(self).verts@[k] == old(self).verts@[k],
            ({
                let n = old(self).verts@.len() as int;
                let v = final(self).verts@;
                &&& same_vertex(v[n], ShapeVertex { x: x1, y: y1, color })
                &&& same_vertex(v[n + 1], ShapeVertex { x: x2, y: y1, color })
                &&& same_vertex(v[n + 2], ShapeVertex { x: x1, y: y2, color })
                &&& same_vertex(v[n + 3], ShapeVertex { x: x2, y: y2, color })
            }),
            final(self).indices@ == old(self).indices@ + shifted(quad_indices(), old(self).verts@.len() as int),
    {
        let base = self.verts.len() as u16;
        let x1b = copy_program(&x1);
        let y1b = copy_program(&y1);
        let x2b = copy_program(&x2);
        let y2b = copy_program(&y2);
        self.verts.push(ShapeVertex { x: x1, y: y1, color });
        self.verts.push(ShapeVertex { x: x2, y: y1b, color });
        self.verts.push(ShapeVertex { x: x1b, y: y2, color });
        self.verts.push(ShapeVertex { x: x2b, y: y2b, color });
        let ghost idx0 = self.indices@;
        self.indices.push(base);
        self.indices.push(base + 2);
        self.indices.push(base + 1);
        self.indices.push(base + 1);
        self.indices.push(base + 2);
        self.indices.push(base + 3);
        assert(self.indices@ =~= idx0 + shifted(quad_indices(), old(self).verts@.len() as int));
    }

    /// The vertices at width `w` and height `h`, or the first failure.
    pub fn eval(&self, w: i64, h: i64) -> (r: Result<Vec<Vertex>, EvalError>)
        ensures
            match eval_vertices(self.verts@, crate::prop::rect_env(crate::gfx::Rectangle { x: 0, y: 0, w, h })) {
                Ok(vs) => r matches Ok(out) && out@ == vs,
                Err(e) => r == Err::<Vec<Vertex>, EvalError>(e),
            },
    {
        let env = crate::prop::rect_vars(&crate::gfx::Rectangle { x: 0, y: 0, w, h });
        let ghost menv = crate::prop::rect_env(crate::gfx::Rectangle { x: 0, y: 0, w, h });
        let ghost all = self.verts@;
        let mut out: Vec<Vertex> = Vec::new();
        let mut i: usize = 0;
        assert(all.skip(0) =~= all);
        while i < self.verts.len()
            invariant
                all == self.verts@,
                i <= all.len(),
                crate::expr::env_model(env@) == menv,
                menv == crate::prop::rect_env(crate::gfx::Rectangle { x: 0, y: 0, w, h }),
                eval_vertices(all, menv) == prefixed(out@, eval_vertices(all.skip(i as int), menv)),
            decreases all.len() - i,
        {
            assert(all.skip(i as int)[0] == all[i as int]);
            assert(all.skip(i as int).skip(1) =~= all.skip(i + 1));
            let x = match evaluate(&self.verts[i].x, &env) {
                Ok(x) => x,
                Err(e) => return Err(e),
            };
            let y = match evaluate(&self.verts[i].y, &env) {
                Ok(y) => y,
                Err(e) => return Err(e),
            };
            let v = Vertex { pos: Point { x, y }, color: self.verts[i].color, uv: Point { x: 0, y: 0 } };
            let ghost pre = out@;
            out.push(v);
            proof {
                match eval_vertices(all.skip(i + 1), menv) {
                    Ok(rest) => {
                        assert(pre + (seq![v] + rest) =~= out@ + rest);
                    },
                    Err(_) => {},
                }
            }
            i += 1;
        }
        assert(out@ + Seq::<Vertex>::empty() =~= out@);
        Ok(out)
    }
}

} // verus!
