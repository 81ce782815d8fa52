//! Visual objects: each owns one key in the draw-call registry, computes its
//! entry from its node's properties, and clears the entry when destroyed.
use vstd::prelude::*;
use crate::draw::{DrawRegistry, put, put_all, lemma_put};
use crate::expr::EvalError;
use crate::gfx::{DrawCall, DrawInstruction, DrawMesh, Point, Rectangle, coord_ok};
use crate::prop::{Role, Value, first_error, rect_env};
use crate::scene::{SceneError, SceneGraph};
use crate::observer::Subscriptions;
use crate::shape::{VectorShape, eval_vertices};
use crate::picker::{
    MAX_EMOJIS, TouchInfo, TouchPhase, drawn_scroll, emoji_at, emoji_at_spec, grid_instrs, grid_instrs_spec, max_bound,
    max_scroll, max_scroll_spec, size_ok, touch_spec, wheel_scroll, wheel_scroll_spec,
};

verus! {

/// Relies on `RngCore::try_fill_bytes` of rand's `OsRng`: eight bytes from
/// the operating system's random source, read as a `u64`; `None` where the
/// source fails. Nothing is known of the value.
#[verifier::external_body]
fn random_key() -> (r: Option<u64>) {
    let mut buf = [0u8; 8];
    match rand::RngCore::try_fill_bytes(&mut rand::rngs::OsRng, &mut buf) {
        Ok(()) => Some(u64::from_le_bytes(buf)),
        Err(_) => None,
    }
}

/// The entries one visual object hands to the registry.
#[derive(Debug)]
pub struct DrawUpdate {
    pub key: u64,
    pub draw_calls: Vec<(u64, DrawCall)>,
}

/// The rectangle held by property `rect` of a node, where all four slots
/// hold numbers.
pub open spec fn rect_of(scene: SceneGraph, node: u64) -> Option<Rectangle> {
    match (
        scene.value_at(node, "rect"@, 0),
        scene.value_at(node, "rect"@, 1),
        scene.value_at(node, "rect"@, 2),
        scene.value_at(node, "rect"@, 3),
    ) {
        (Some(Value::Num(x)), Some(Value::Num(y)), Some(Value::Num(w)), Some(Value::Num(h))) => Some(
            Rectangle { x, y, w, h },
        ),
        _ => None,
    }
}

/// The boolean in the first slot of property `name` of a node.
pub open spec fn bool_of(scene: SceneGraph, node: u64, name: Seq<char>) -> Option<bool> {
    match scene.value_at(node, name, 0) {
        Some(Value::Bool(b)) => Some(b),
        _ => None,
    }
}

/// The integer in the first slot of property `name` of a node.
pub open spec fn u32_of(scene: SceneGraph, node: u64, name: Seq<char>) -> Option<u32> {
    match scene.value_at(node, name, 0) {
        Some(Value::Uint32(v)) => Some(v),
        _ => None,
    }
}

/// The fixed-point number in the first slot of property `name` of a node.
pub open spec fn num_of(scene: SceneGraph, node: u64, name: Seq<char>) -> Option<i64> {
    match scene.value_at(node, name, 0) {
        Some(Value::Num(v)) => Some(v),
        _ => None,
    }
}

/// Whether `instrs` draw `shape` at `rect`: move to its corner, then draw
/// the shape's mesh evaluated at its size.
pub open spec fn draws_shape_at(instrs: Seq<DrawInstruction>, shape: VectorShape, rect: Rectangle) -> bool {
    &&& instrs.len() == 2
    &&& instrs[0] == DrawInstruction::Move(Point { x: rect.x, y: rect.y })
    &&& instrs[1] matches DrawInstruction::Draw(m)
    &&& eval_vertices(shape.verts@, rect_env(Rectangle { x: 0, y: 0, w: rect.w, h: rect.h })) == Ok::<Seq<crate::gfx::Vertex>, EvalError>(m.verts@)
    &&& m.indices@ == shape.indices@
    &&& m.texture is None
}

/// Why a visual object could not be made.
#[derive(Debug, Clone, Copy, PartialEq, Eq, Structural)]
pub enum VisualError {
    /// The node, or a property the object works with, is missing or of
    /// another type.
    NotFound,
    /// The random source for the draw-call key failed.
    NoRandomKey,
}

/// Whether a node has the properties a vector art object draws from:
/// `is_visible`, `rect`, `z_index` and `priority`, of their types.
pub open spec fn vector_art_props(scene: SceneGraph, node: u64) -> bool {
    &&& bool_of(scene, node, "is_visible"@) is Some
    &&& rect_of(scene, node) is Some
    &&& u32_of(scene, node, "z_index"@) is Some
    &&& u32_of(scene, node, "priority"@) is Some
}

/// Whether a node has the properties an emoji picker works with: `rect`,
/// `z_index`, `priority`, `scroll`, `emoji_size` and `mouse_scroll_speed`,
/// of their types.
pub open spec fn picker_props(scene: SceneGraph, node: u64) -> bool {
    &&& rect_of(scene, node) is Some
    &&& u32_of(scene, node, "z_index"@) is Some
    &&& u32_of(scene, node, "priority"@) is Some
    &&& num_of(scene, node, "scroll"@) is Some
    &&& num_of(scene, node, "emoji_size"@) is Some
    &&& num_of(scene, node, "mouse_scroll_speed"@) is Some
}

fn has_vector_art_props(scene: &SceneGraph, node: u64) -> (r: bool)
    requires
        scene.wf(),
    ensures
        r == vector_art_props(*scene, node),
{
    proof {
        reveal_strlit("is_visible");
    }
    let visible = match scene.get_value(node, &name_of("is_visible"), 0) {
        Some(Value::Bool(_)) => true,
        _ => false,
    };
    visible && read_rect(scene, node).is_some() && read_u32(scene, node, "z_index").is_some()
        && read_u32(scene, node, "priority").is_some()
}

fn has_picker_props(scene: &SceneGraph, node: u64) -> (r: bool)
    requires
        scene.wf(),
    ensures
        r == picker_props(*scene, node),
{
    read_rect(scene, node).is_some() && read_u32(scene, node, "z_index").is_some()
        && read_u32(scene, node, "priority").is_some() && read_num(scene, node, "scroll").is_some()
        && read_num(scene, node, "emoji_size").is_some() && read_num(scene, node, "mouse_scroll_speed").is_some()
}

/// A visual object that draws a vector shape in its node's rectangle.
#[derive(Debug)]
pub struct VectorArt {
    pub node: u64,
    pub shape: VectorShape,
    pub dc_key: u64,
    /// The parent rectangle of the latest draw.
    pub parent_rect: Option<Rectangle>,
}

fn name_of(s: &str) -> (r: String)
    ensures
        r@ == s@,
{
    s.to_string()
}

impl VectorArt {
    /// A vector art object for `node`, under a randomly drawn key. Fails
    /// with `NotFound` where the node lacks one of the properties it draws
    /// from (see [`vector_art_props`]), and with `NoRandomKey` where no
    /// random key can be had.
    pub fn new(scene: &SceneGraph, node: u64, shape: VectorShape) -> (r: Result<VectorArt, VisualError>)
        requires
            scene.wf(),
        ensures
            !vector_art_props(*scene, node) ==> r == Err::<VectorArt, VisualError>(VisualError::NotFound),
            vector_art_props(*scene, node) ==> r is Ok || r == Err::<VectorArt, VisualError>(VisualError::NoRandomKey),
            r matches Ok(v) ==> v.node == node && v.shape == shape && v.parent_rect is None,
    {
        if !has_vector_art_props(scene, node) {
            return Err(VisualError::NotFound);
        }
        match random_key() {
            Some(dc_key) => Ok(VectorArt { node, shape, dc_key, parent_rect: None }),
            None => Err(VisualError::NoRandomKey),
        }
    }

    /// A vector art object for `node` under a given key; `NotFound` where
    /// the node lacks one of the properties it draws from.
    pub fn with_key(scene: &SceneGraph, node: u64, shape: VectorShape, dc_key: u64) -> (r: Result<VectorArt, VisualError>)
        requires
            scene.wf(),
        ensures
            r is Ok == vector_art_props(*scene, node),
            !vector_art_props(*scene, node) ==> r == Err::<VectorArt, VisualError>(VisualError::NotFound),
            r matches Ok(v) ==> v.node == node && v.shape == shape && v.dc_key == dc_key && v.parent_rect is None,
    {
        if !has_vector_art_props(scene, node) {
            return Err(VisualError::NotFound);
        }
        Ok(VectorArt { node, shape, dc_key, parent_rect: None })
    }

    /// The draw order among siblings: the node's `priority` property.
    pub fn priority(&self, scene: &SceneGraph) -> (r: Option<u32>)
        requires
            scene.wf(),
        ensures
            r == u32_of(*scene, self.node, "priority"@),
    {
        proof {
            reveal_strlit("priority");
        }
        match scene.get_value(self.node, &name_of("priority"), 0) {
            Some(Value::Uint32(v)) => Some(*v),
            _ => None,
        }
    }

    /// Whether the node's properties let it be drawn: it is hidden, or it
    /// has a rectangle at whose size the shape evaluates.
    pub open spec fn drawable(&self, scene: SceneGraph) -> bool {
        match (bool_of(scene, self.node, "is_visible"@), rect_of(scene, self.node)) {
            (Some(false), _) => true,
            (Some(true), Some(rect)) => eval_vertices(
                self.shape.verts@,
                rect_env(Rectangle { x: 0, y: 0, w: rect.w, h: rect.h }),
            ) is Ok,
            _ => false,
        }
    }

    /// Whether `instrs` are what the node's properties call for: nothing
    /// when hidden, else the shape at the node's rectangle.
    pub open spec fn instrs_for(&self, scene: SceneGraph, instrs: Seq<DrawInstruction>) -> bool {
        match (bool_of(scene, self.node, "is_visible"@), rect_of(scene, self.node)) {
            (Some(false), _) => instrs.len() == 0,
            (Some(true), Some(rect)) => draws_shape_at(instrs, self.shape, rect),
            _ => false,
        }
    }

    /// The instructions for the current property values: none when the node
    /// is hidden, else a move to the rectangle's corner and the shape's mesh
    /// at the rectangle's size. `None` where a property is missing or the
    /// shape fails to evaluate.
    pub fn get_draw_instrs(&self, scene: &SceneGraph) -> (r: Option<Vec<DrawInstruction>>)
        requires
            scene.wf(),
        ensures
            r is Some == self.drawable(*scene),
            r matches Some(v) ==> self.instrs_for(*scene, v@),
    {
        proof {
            reveal_strlit("is_visible");
            reveal_strlit("rect");
        }
        let visible = match scene.get_value(self.node, &name_of("is_visible"), 0) {
            Some(Value::Bool(b)) => *b,
            _ => return None,
        };
        if !visible {
            return Some(Vec::new());
        }
        let rect_name = name_of("rect");
        let x = match scene.get_value(self.node, &rect_name, 0) {
            Some(Value::Num(v)) => *v,
            _ => return None,
        };
        let y = match scene.get_value(self.node, &rect_name, 1) {
            Some(Value::Num(v)) => *v,
            _ => return None,
        };
        let w = match scene.get_value(self.node, &rect_name, 2) {
            Some(Value::Num(v)) => *v,
            _ => return None,
        };
        let h = match scene.get_value(self.node, &rect_name, 3) {
            Some(Value::Num(v)) => *v,
            _ => return None,
        };
        let verts = match self.shape.eval(w, h) {
            Ok(v) => v,
            Err(_) => return None,
        };
        let mut indices: Vec<u16> = Vec::new();
        let mut k: usize = 0;
        while k < self.shape.indices.len()
            invariant
                k <= self.shape.indices@.len(),
                indices@ == self.shape.indices@.subrange(0, k as int),
            decreases self.shape.indices@.len() - k,
        {
            indices.push(self.shape.indices[k]);
            k += 1;
            assert(indices@ =~= self.shape.indices@.subrange(0, k as int));
        }
        assert(self.shape.indices@.subrange(0, k as int) =~= self.shape.indices@);
        let mut instrs: Vec<DrawInstruction> = Vec::new();
        instrs.push(DrawInstruction::Move(Point { x, y }));
        instrs.push(DrawInstruction::Draw(DrawMesh { verts, indices, texture: None }));
        Some(instrs)
    }

    /// Subscribes this object, by its key, to the properties its drawing
    /// depends on: `is_visible`, `rect` and `z_index` of its node.
    pub fn start(&self, subs: &mut Subscriptions)
        ensures
            final(subs).subs@.len() == old(subs).subs@.len() + 3,
            final(subs).subs@.subrange(0, old(subs).subs@.len() as int) == old(subs).subs@,
            ({
                let n = old(subs).subs@.len() as int;
                let t = final(subs).subs@;
                &&& forall|k: int| n <= k < n + 3 ==> (#[trigger] t[k]).object == self.dc_key && t[k].node == self.node
                &&& t[n].prop@ == "is_visible"@
                &&& t[n + 1].prop@ == "rect"@
                &&& t[n + 2].prop@ == "z_index"@
            }),
    {
        let ghost s0 = subs.subs@;
        subs.subscribe(self.dc_key, self.node, "is_visible");
        subs.subscribe(self.dc_key, self.node, "rect");
        subs.subscribe(self.dc_key, self.node, "z_index");
        assert(subs.subs@.subrange(0, s0.len() as int) =~= s0);
    }

    /// Whether `dc` is this object's entry for the properties of `scene`:
    /// the instructions its node calls for, at the node's `z_index`.
    pub open spec fn entry_for(&self, scene: SceneGraph, dc: DrawCall) -> bool {
        &&& Some(dc.z_index) == u32_of(scene, self.node, "z_index"@)
        &&& self.instrs_for(scene, dc.instrs@)
    }

    /// Whether `new` is `old` with the node's rectangle evaluated against
    /// `parent`, and the node can then be drawn: it has a `z_index` and is
    /// hidden or has a shape that evaluates at its size.
    pub open spec fn draws_after(&self, old: SceneGraph, new: SceneGraph, parent: Rectangle) -> bool {
        &&& !old.eval_fails(self.node, "rect"@, parent)
        &&& new.eval_outcome(old, self.node, "rect"@, parent, Ok(()))
        &&& self.drawable(new)
        &&& u32_of(new, self.node, "z_index"@) is Some
    }

    /// The scene after evaluating the node's rectangle against `parent`:
    /// unchanged where that fails, else with the rectangle's bound slots
    /// holding their values.
    pub open spec fn rect_evaluated(&self, old: SceneGraph, new: SceneGraph, parent: Rectangle) -> bool {
        if old.eval_fails(self.node, "rect"@, parent) {
            new == old
        } else {
            new.eval_outcome(old, self.node, "rect"@, parent, Ok(()))
        }
    }

    /// Evaluates the node's rectangle against `parent`, then computes this
    /// object's entry. `None` where the rectangle fails to evaluate, the
    /// node cannot be drawn, or it has no `z_index`.
    pub fn get_draw_calls(&self, scene: &mut SceneGraph, parent: &Rectangle) -> (r: Option<DrawUpdate>)
        requires
            old(scene).wf(),
        ensures
            final(scene).wf(),
            self.rect_evaluated(*old(scene), *final(scene), *parent),
            r is Some == self.draws_after(*old(scene), *final(scene), *parent),
            r matches Some(u) ==> {
                &&& u.key == self.dc_key
                &&& u.draw_calls@.len() == 1
                &&& u.draw_calls@[0].0 == self.dc_key
                &&& self.entry_for(*final(scene), u.draw_calls@[0].1)
            },
    {
        proof {
            reveal_strlit("rect");
            reveal_strlit("z_index");
        }
        match scene.eval_property(self.node, &name_of("rect"), parent) {
            Ok(()) => {},
            Err(_) => return None,
        }
        let instrs = match self.get_draw_instrs(scene) {
            Some(v) => v,
            None => return None,
        };
        let z_index = match scene.get_value(self.node, &name_of("z_index"), 0) {
            Some(Value::Uint32(z)) => *z,
            _ => return None,
        };
        let mut draw_calls: Vec<(u64, DrawCall)> = Vec::new();
        draw_calls.push((self.dc_key, DrawCall { instrs, z_index }));
        Some(DrawUpdate { key: self.dc_key, draw_calls })
    }

    /// Remembers `parent` as the rectangle to redraw in, and computes the
    /// entry for it (see [`VectorArt::get_draw_calls`]).
    pub fn draw(&mut self, scene: &mut SceneGraph, parent: &Rectangle) -> (r: Option<DrawUpdate>)
        requires
            old(scene).wf(),
        ensures
            final(scene).wf(),
            final(self).parent_rect == Some(*parent),
            final(self).node == old(self).node,
            final(self).shape == old(self).shape,
            final(self).dc_key == old(self).dc_key,
            old(self).rect_evaluated(*old(scene), *final(scene), *parent),
            r is Some == old(self).draws_after(*old(scene), *final(scene), *parent),
            r matches Some(u) ==> u.key == old(self).dc_key && u.draw_calls@.len() == 1
                && u.draw_calls@[0].0 == old(self).dc_key
                && old(self).entry_for(*final(scene), u.draw_calls@[0].1),
    {
        self.parent_rect = Some(*parent);
        self.get_draw_calls(scene, parent)
    }

    /// Recomputes the entry in the remembered parent rectangle and installs
    /// it. Nothing is installed before the first draw or where the entry
    /// cannot be computed: the previous entry stays.
    pub fn redraw(&self, scene: &mut SceneGraph, registry: &mut DrawRegistry, timestamp: u64) -> (r: bool)
        requires
            old(scene).wf(),
            old(registry).wf(),
        ensures
            final(scene).wf(),
            final(registry).wf(),
            match self.parent_rect {
                None => !r && *final(scene) == *old(scene),
                Some(p) => self.rect_evaluated(*old(scene), *final(scene), p)
                    && r == self.draws_after(*old(scene), *final(scene), p),
            },
            !r ==> *final(registry) == *old(registry),
            r ==> final(registry).timestamp == timestamp && exists|dc: DrawCall|
                final(registry).entries@ == put(old(registry).entries@, self.dc_key, dc)
                && self.entry_for(*final(scene), dc),
    {
        let parent = match self.parent_rect {
            Some(p) => p,
            None => return false,
        };
        let update = match self.get_draw_calls(scene, &parent) {
            Some(u) => u,
            None => return false,
        };
        let ghost dc = update.draw_calls@[0].1;
        assert(update.draw_calls@.skip(1).len() == 0);
        assert(put_all(put(registry.entries@, self.dc_key, dc), update.draw_calls@.skip(1))
            == put(registry.entries@, self.dc_key, dc));
        registry.replace_draw_calls(timestamp, update.draw_calls);
        true
    }

    /// Ends this object: its entry in the registry is replaced by an empty
    /// one, so that nothing it drew stays in later frames. Other keys'
    /// entries stay where and as they were.
    pub fn destroy(self, registry: &mut DrawRegistry, timestamp: u64)
        requires
            old(registry).wf(),
        ensures
            final(registry).wf(),
            final(registry).timestamp == timestamp,
            exists|dc: DrawCall| dc.instrs@.len() == 0
                && final(registry).entries@ == put(old(registry).entries@, self.dc_key, dc),
            exists|i: int| 0 <= i < final(registry).entries@.len()
                && final(registry).entries@[i].0 == self.dc_key
                && final(registry).entries@[i].1.instrs@.len() == 0,
            forall|i: int| 0 <= i < old(registry).entries@.len() && old(registry).entries@[i].0 != self.dc_key
                ==> final(registry).entries@[i] == old(registry).entries@[i],
    {
        let dc = DrawCall::empty();
        let ghost g = dc;
        let mut calls: Vec<(u64, DrawCall)> = Vec::new();
        calls.push((self.dc_key, dc));
        assert(calls@.skip(1).len() == 0);
        assert(put_all(put(registry.entries@, self.dc_key, g), calls@.skip(1))
            == put(registry.entries@, self.dc_key, g));
        proof {
            lemma_put(registry.entries@, self.dc_key, g);
        }
        registry.replace_draw_calls(timestamp, calls);
    }
}

fn read_num(scene: &SceneGraph, node: u64, name: &str) -> (r: Option<i64>)
    requires
        scene.wf(),
    ensures
        r == num_of(*scene, node, name@),
{
    match scene.get_value(node, &name_of(name), 0) {
        Some(Value::Num(v)) => Some(*v),
        _ => None,
    }
}

fn read_u32(scene: &SceneGraph, node: u64, name: &str) -> (r: Option<u32>)
    requires
        scene.wf(),
    ensures
        r == u32_of(*scene, node, name@),
{
    match scene.get_value(node, &name_of(name), 0) {
        Some(Value::Uint32(v)) => Some(*v),
        _ => None,
    }
}

fn read_rect(scene: &SceneGraph, node: u64) -> (r: Option<Rectangle>)
    requires
        scene.wf(),
    ensures
        r == rect_of(*scene, node),
{
    proof {
        reveal_strlit("rect");
    }
    let name = name_of("rect");
    let x = match scene.get_value(node, &name, 0) {
        Some(Value::Num(v)) => *v,
        _ => return None,
    };
    let y = match scene.get_value(node, &name, 1) {
        Some(Value::Num(v)) => *v,
        _ => return None,
    };
    let w = match scene.get_value(node, &name, 2) {
        Some(Value::Num(v)) => *v,
        _ => return None,
    };
    let h = match scene.get_value(node, &name, 3) {
        Some(Value::Num(v)) => *v,
        _ => return None,
    };
    Some(Rectangle { x, y, w, h })
}

/// The picker's rectangle, emoji size and scroll, where all are present
/// and in the ranges the grid works with.
pub open spec fn picker_params(scene: SceneGraph, node: u64) -> Option<(Rectangle, i64, i64)> {
    match (rect_of(scene, node), num_of(scene, node, "emoji_size"@), num_of(scene, node, "scroll"@)) {
        (Some(rect), Some(size), Some(scroll)) => if rect.bounded() && size_ok(size) && coord_ok(scroll as int) {
            Some((rect, size, scroll))
        } else {
            None
        },
        _ => None,
    }
}

/// A visual object that shows a scrollable grid of emojis. Selecting one
/// yields its index; the meshes are supplied per frame.
#[derive(Debug)]
pub struct EmojiPicker {
    pub node: u64,
    pub dc_key: u64,
    /// The parent rectangle of the latest draw.
    pub parent_rect: Option<Rectangle>,
    pub is_mouse_hover: bool,
    pub touch_info: Option<TouchInfo>,
}

impl EmojiPicker {
    /// A picker for `node`, under a randomly drawn key. Fails with
    /// `NotFound` where the node lacks one of the properties it works with
    /// (see [`picker_props`]), and with `NoRandomKey` where no random key
    /// can be had.
    pub fn new(scene: &SceneGraph, node: u64) -> (r: Result<EmojiPicker, VisualError>)
        requires
            scene.wf(),
        ensures
            !picker_props(*scene, node) ==> r == Err::<EmojiPicker, VisualError>(VisualError::NotFound),
            picker_props(*scene, node) ==> r is Ok || r == Err::<EmojiPicker, VisualError>(VisualError::NoRandomKey),
            r matches Ok(p) ==> p.node == node && p.parent_rect is None && !p.is_mouse_hover && p.touch_info is None,
    {
        if !has_picker_props(scene, node) {
            return Err(VisualError::NotFound);
        }
        match random_key() {
            Some(dc_key) => Ok(EmojiPicker { node, dc_key, parent_rect: None, is_mouse_hover: false, touch_info: None }),
            None => Err(VisualError::NoRandomKey),
        }
    }

    /// A picker for `node` under a given key; `NotFound` where the node
    /// lacks one of the properties it works with.
    pub fn with_key(scene: &SceneGraph, node: u64, dc_key: u64) -> (r: Result<EmojiPicker, VisualError>)
        requires
            scene.wf(),
        ensures
            r is Ok == picker_props(*scene, node),
            !picker_props(*scene, node) ==> r == Err::<EmojiPicker, VisualError>(VisualError::NotFound),
            r matches Ok(p) ==> p.node == node && p.dc_key == dc_key && p.parent_rect is None && !p.is_mouse_hover
                && p.touch_info is None,
    {
        if !has_picker_props(scene, node) {
            return Err(VisualError::NotFound);
        }
        Ok(EmojiPicker { node, dc_key, parent_rect: None, is_mouse_hover: false, touch_info: None })
    }

    /// The draw order among siblings: the node's `priority` property.
    pub fn priority(&self, scene: &SceneGraph) -> (r: Option<u32>)
        requires
            scene.wf(),
        ensures
            r == u32_of(*scene, self.node, "priority"@),
    {
        read_u32(scene, self.node, "priority")
    }

    fn params(&self, scene: &SceneGraph) -> (r: Option<(Rectangle, i64, i64)>)
        requires
            scene.wf(),
        ensures
            r == picker_params(*scene, self.node),
    {
        let rect = match read_rect(scene, self.node) {
            Some(r) => r,
            None => return None,
        };
        let size = match read_num(scene, self.node, "emoji_size") {
            Some(v) => v,
            None => return None,
        };
        let scroll = match read_num(scene, self.node, "scroll") {
            Some(v) => v,
            None => return None,
        };
        let bounded = -0x100_0000_0000 <= rect.x && rect.x <= 0x100_0000_0000 && -0x100_0000_0000 <= rect.y
            && rect.y <= 0x100_0000_0000 && -0x100_0000_0000 <= rect.w && rect.w <= 0x100_0000_0000
            && -0x100_0000_0000 <= rect.h && rect.h <= 0x100_0000_0000;
        if bounded && 0 < size && size <= 0x100_0000_0000 && -0x100_0000_0000 <= scroll && scroll <= 0x100_0000_0000 {
            Some((rect, size, scroll))
        } else {
            None
        }
    }

    /// How far the grid of `n_emojis` scrolls in the node's rectangle
    /// (`Some(None)`: without bound); `None` where the properties are
    /// missing or out of range.
    pub fn max_scroll(&self, scene: &SceneGraph, n_emojis: u64) -> (r: Option<Option<i64>>)
        requires
            scene.wf(),
            n_emojis <= MAX_EMOJIS,
        ensures
            match picker_params(*scene, self.node) {
                Some((rect, size, _)) => r == Some(max_bound(n_emojis as int, rect.w as int, rect.h as int, size as int)),
                None => r is None,
            },
    {
        match self.params(scene) {
            Some((rect, size, _)) => Some(max_scroll(n_emojis, rect.w, rect.h, size)),
            None => None,
        }
    }

    /// The scroll the grid is drawn at: the stored scroll, held to at most
    /// the largest scroll for `n` emojis.
    pub open spec fn held_scroll(&self, scene: SceneGraph, n: int) -> i64 {
        let (rect, size, scroll) = picker_params(scene, self.node)->Some_0;
        drawn_scroll(scroll, max_scroll_spec(n, rect.w as int, rect.h as int, size as int))
    }

    /// Whether a frame of `n` emojis can be computed from the properties
    /// of `scene`: they are present and in range, and the node has a
    /// `z_index`.
    pub open spec fn frame_ok(&self, scene: SceneGraph, n: int) -> bool {
        &&& picker_params(scene, self.node) is Some
        &&& u32_of(scene, self.node, "z_index"@) is Some
    }

    /// Whether `dc` is the picker's entry for the properties of `scene`.
    pub open spec fn frame_entry(&self, scene: SceneGraph, meshes: Seq<DrawMesh>, dc: DrawCall) -> bool {
        &&& picker_params(scene, self.node) matches Some((rect, size, scroll))
        &&& Some(dc.z_index) == u32_of(scene, self.node, "z_index"@)
        &&& grid_instrs_spec(rect, scroll, size, meshes, self.held_scroll(scene, meshes.len() as int), dc.instrs@)
    }

    /// Whether `new` is `mid` with the scroll `s` stored (by the internal
    /// role) where it differs from the stored one, `w` being the write's
    /// outcome.
    pub open spec fn scroll_stored(&self, mid: SceneGraph, new: SceneGraph, s: i64, w: Result<(), SceneError>) -> bool {
        match picker_params(mid, self.node) {
            Some((_, _, scroll)) => if s == scroll {
                new == mid && w == Ok::<(), SceneError>(())
            } else {
                new.set_outcome(mid, self.node, "scroll"@, Role::Internal, 0, Value::Num(s), w)
            },
            None => false,
        }
    }

    /// Whether `new` and `r` are what drawing in `parent` gives from `old`:
    /// the rectangle is evaluated (nothing else happens where that fails);
    /// then, where a frame can be computed, the entry is the grid at the
    /// held-back scroll, which is stored where it changed.
    pub open spec fn drawn(&self, old: SceneGraph, new: SceneGraph, parent: Rectangle, meshes: Seq<DrawMesh>, r: Option<(DrawUpdate, Result<(), SceneError>)>) -> bool {
        if old.eval_fails(self.node, "rect"@, parent) {
            r is None && new == old
        } else {
            exists|mid: SceneGraph| {
                &&& mid.wf()
                &&& #[trigger] mid.eval_outcome(old, self.node, "rect"@, parent, Ok(()))
                &&& r is Some == self.frame_ok(mid, meshes.len() as int)
                &&& r is None ==> new == mid
                &&& r matches Some((u, w)) ==> {
                    &&& u.key == self.dc_key
                    &&& u.draw_calls@.len() == 1
                    &&& u.draw_calls@[0].0 == self.dc_key
                    &&& self.frame_entry(mid, meshes, u.draw_calls@[0].1)
                    &&& self.scroll_stored(mid, new, self.held_scroll(mid, meshes.len() as int), w)
                }
            }
        }
    }

    /// This frame's entry and scroll for the node's current properties (see
    /// [`grid_instrs`]); `None` where a property is missing or out of range.
    pub fn frame(&self, scene: &SceneGraph, meshes: Vec<DrawMesh>) -> (r: Option<(i64, DrawUpdate)>)
        requires
            scene.wf(),
            meshes@.len() <= MAX_EMOJIS,
        ensures
            r is Some == self.frame_ok(*scene, meshes@.len() as int),
            r matches Some((s, u)) ==> {
                &&& s == self.held_scroll(*scene, meshes@.len() as int)
                &&& u.key == self.dc_key
                &&& u.draw_calls@.len() == 1
                &&& u.draw_calls@[0].0 == self.dc_key
                &&& self.frame_entry(*scene, meshes@, u.draw_calls@[0].1)
            },
    {
        let (rect, size, scroll) = match self.params(scene) {
            Some(p) => p,
            None => return None,
        };
        let z_index = match read_u32(scene, self.node, "z_index") {
            Some(z) => z,
            None => return None,
        };
        let ghost ms = meshes@;
        let (s, instrs) = grid_instrs(rect, scroll, size, meshes);
        let mut draw_calls: Vec<(u64, DrawCall)> = Vec::new();
        draw_calls.push((self.dc_key, DrawCall { instrs, z_index }));
        Some((s, DrawUpdate { key: self.dc_key, draw_calls }))
    }

    /// Evaluates the node's rectangle against `parent`, computes the entry,
    /// and stores the scroll where it had to be held back; the second part
    /// of the result is that write's outcome (a higher role's scroll is
    /// kept, and the refusal returned).
    pub fn get_draw_calls(&self, scene: &mut SceneGraph, parent: &Rectangle, meshes: Vec<DrawMesh>) -> (r: Option<(DrawUpdate, Result<(), SceneError>)>)
        requires
            old(scene).wf(),
            meshes@.len() <= MAX_EMOJIS,
        ensures
            final(scene).wf(),
            self.drawn(*old(scene), *final(scene), *parent, meshes@, r),
    {
        proof {
            reveal_strlit("rect");
        }
        let ghost ms = meshes@;
        match scene.eval_property(self.node, &name_of("rect"), parent) {
            Ok(()) => {},
            Err(_) => return None,
        }
        let ghost mid = *scene;
        let (s, update) = match self.frame(scene, meshes) {
            Some(x) => x,
            None => {
                assert(mid.eval_outcome(*old(scene), self.node, "rect"@, *parent, Ok(())));
                return None;
            },
        };
        let scroll = match read_num(scene, self.node, "scroll") {
            Some(v) => v,
            None => return None,
        };
        let w = if scroll != s {
            self.store_scroll(scene, s)
        } else {
            Ok(())
        };
        assert(mid.eval_outcome(*old(scene), self.node, "rect"@, *parent, Ok(())));
        Some((update, w))
    }

    /// Subscribes this picker, by its key, to the properties its drawing
    /// depends on: `rect` and `z_index` of its node.
    pub fn start(&self, subs: &mut Subscriptions)
        ensures
            final(subs).subs@.len() == old(subs).subs@.len() + 2,
            final(subs).subs@.subrange(0, old(subs).subs@.len() as int) == old(subs).subs@,
            ({
                let n = old(subs).subs@.len() as int;
                let t = final(subs).subs@;
                &&& forall|k: int| n <= k < n + 2 ==> (#[trigger] t[k]).object == self.dc_key && t[k].node == self.node
                &&& t[n].prop@ == "rect"@
                &&& t[n + 1].prop@ == "z_index"@
            }),
    {
        let ghost s0 = subs.subs@;
        subs.subscribe(self.dc_key, self.node, "rect");
        subs.subscribe(self.dc_key, self.node, "z_index");
        assert(subs.subs@.subrange(0, s0.len() as int) =~= s0);
    }

    /// Remembers `parent` and computes the entry for it (see
    /// [`EmojiPicker::get_draw_calls`]).
    pub fn draw(&mut self, scene: &mut SceneGraph, parent: &Rectangle, meshes: Vec<DrawMesh>) -> (r: Option<(DrawUpdate, Result<(), SceneError>)>)
        requires
            old(scene).wf(),
            meshes@.len() <= MAX_EMOJIS,
        ensures
            final(scene).wf(),
            final(self).parent_rect == Some(*parent),
            final(self).node == old(self).node,
            final(self).dc_key == old(self).dc_key,
            final(self).is_mouse_hover == old(self).is_mouse_hover,
            final(self).touch_info == old(self).touch_info,
            old(self).drawn(*old(scene), *final(scene), *parent, meshes@, r),
    {
        self.parent_rect = Some(*parent);
        self.get_draw_calls(scene, parent, meshes)
    }

    /// Recomputes the entry in the remembered parent rectangle and installs
    /// it; nothing is installed before the first draw or where it cannot be
    /// computed. The result says whether an entry was installed, and the
    /// outcome of storing the held-back scroll.
    pub fn redraw(&self, scene: &mut SceneGraph, registry: &mut DrawRegistry, timestamp: u64, meshes: Vec<DrawMesh>) -> (r: (bool, Result<(), SceneError>))
        requires
            old(scene).wf(),
            old(registry).wf(),
            meshes@.len() <= MAX_EMOJIS,
        ensures
            final(scene).wf(),
            final(registry).wf(),
            match self.parent_rect {
                None => r == (false, Ok::<(), SceneError>(())) && *final(scene) == *old(scene)
                    && *final(registry) == *old(registry),
                Some(p) => exists|res: Option<(DrawUpdate, Result<(), SceneError>)>| {
                    &&& #[trigger] self.drawn(*old(scene), *final(scene), p, meshes@, res)
                    &&& r.0 == res is Some
                    &&& match res {
                        Some((u, w)) => r.1 == w && final(registry).timestamp == timestamp
                            && final(registry).entries@ == put(old(registry).entries@, self.dc_key, u.draw_calls@[0].1),
                        None => r.1 == Ok::<(), SceneError>(()) && *final(registry) == *old(registry),
                    }
                },
            },
    {
        let parent = match self.parent_rect {
            Some(p) => p,
            None => return (false, Ok(())),
        };
        let res = self.get_draw_calls(scene, &parent, meshes);
        let ghost g = res;
        match res {
            Some((update, w)) => {
                let ghost dc = update.draw_calls@[0].1;
                assert(update.draw_calls@.skip(1).len() == 0);
                assert(put_all(put(registry.entries@, self.dc_key, dc), update.draw_calls@.skip(1))
                    == put(registry.entries@, self.dc_key, dc));
                registry.replace_draw_calls(timestamp, update.draw_calls);
                assert(self.drawn(*old(scene), *scene, parent, meshes@, g));
                (true, w)
            },
            None => {
                assert(self.drawn(*old(scene), *scene, parent, meshes@, g));
                (false, Ok(()))
            },
        }
    }

    /// Tracks whether the mouse is over the picker's rectangle. The event is
    /// never taken.
    pub fn handle_mouse_move(&mut self, scene: &SceneGraph, pos: Point) -> (r: bool)
        requires
            scene.wf(),
        ensures
            !r,
            final(self).is_mouse_hover == (rect_of(*scene, old(self).node) matches Some(rect) && rect.contains_spec(pos)),
            final(self).node == old(self).node,
            final(self).dc_key == old(self).dc_key,
            final(self).parent_rect == old(self).parent_rect,
            final(self).touch_info == old(self).touch_info,
    {
        self.is_mouse_hover = match read_rect(scene, self.node) {
            Some(rect) => rect.contains(&pos),
            None => false,
        };
        false
    }

    /// Sets the scroll property by the internal role; the result is the
    /// write's outcome (see [`SceneGraph::set_property`]).
    fn store_scroll(&self, scene: &mut SceneGraph, v: i64) -> (r: Result<(), SceneError>)
        requires
            old(scene).wf(),
        ensures
            final(scene).wf(),
            final(scene).set_outcome(*old(scene), self.node, "scroll"@, Role::Internal, 0, Value::Num(v), r),
    {
        proof {
            reveal_strlit("scroll");
        }
        scene.set_property(self.node, &name_of("scroll"), Role::Internal, 0, Value::Num(v))
    }

    /// The scroll a mouse wheel movement stores, where the picker takes it:
    /// the mouse is over it, its properties and the speed are present and in
    /// range (see [`wheel_scroll_spec`]).
    pub open spec fn wheel_target(&self, scene: SceneGraph, wheel_y: i64, n: int) -> Option<i64> {
        if !self.is_mouse_hover || !coord_ok(wheel_y as int) {
            None
        } else {
            match (picker_params(scene, self.node), num_of(scene, self.node, "mouse_scroll_speed"@)) {
                (Some((rect, size, scroll)), Some(speed)) => if !coord_ok(speed as int) {
                    None
                } else {
                    Some(wheel_scroll_spec(
                        scroll as int, speed as int, wheel_y as int, max_bound(n, rect.w as int, rect.h as int, size as int),
                    ) as i64)
                },
                _ => None,
            }
        }
    }

    /// Whether `new` and `r` are what a mouse wheel movement gives from
    /// `old` (see [`EmojiPicker::handle_mouse_wheel`]).
    pub open spec fn wheel_done(&self, old: SceneGraph, new: SceneGraph, wheel_y: i64, n: int, r: Result<bool, SceneError>) -> bool {
        match self.wheel_target(old, wheel_y, n) {
            None => r == Ok::<bool, SceneError>(false) && new == old,
            Some(v) => match r {
                Ok(true) => new.set_outcome(old, self.node, "scroll"@, Role::Internal, 0, Value::Num(v), Ok(())),
                Ok(false) => false,
                Err(e) => new.set_outcome(old, self.node, "scroll"@, Role::Internal, 0, Value::Num(v), Err(e)),
            },
        }
    }

    /// Scrolls by a mouse wheel movement (see [`EmojiPicker::wheel_target`]).
    /// `Ok(true)` where the new scroll was stored (redraw then), `Ok(false)`
    /// where the event is not taken, and the write's error where the store
    /// was refused.
    pub fn handle_mouse_wheel(&self, scene: &mut SceneGraph, wheel_y: i64, n_emojis: u64) -> (r: Result<bool, SceneError>)
        requires
            old(scene).wf(),
            n_emojis <= MAX_EMOJIS,
        ensures
            final(scene).wf(),
            self.wheel_done(*old(scene), *final(scene), wheel_y, n_emojis as int, r),
    {
        if !self.is_mouse_hover {
            return Ok(false);
        }
        if !(-0x100_0000_0000 <= wheel_y && wheel_y <= 0x100_0000_0000) {
            return Ok(false);
        }
        let (rect, size, scroll) = match self.params(scene) {
            Some(p) => p,
            None => return Ok(false),
        };
        let speed = match read_num(scene, self.node, "mouse_scroll_speed") {
            Some(v) => v,
            None => return Ok(false),
        };
        if !(-0x100_0000_0000 <= speed && speed <= 0x100_0000_0000) {
            return Ok(false);
        }
        let max = max_scroll(n_emojis, rect.w, rect.h, size);
        let v = wheel_scroll(scroll, speed, wheel_y, max);
        match self.store_scroll(scene, v) {
            Ok(()) => Ok(true),
            Err(e) => Err(e),
        }
    }

    /// Publishes `payload` (an encoded emoji) on the node's `emoji_select`
    /// signal (see [`SceneGraph::trigger`]).
    pub fn select_emoji(&self, scene: &mut SceneGraph, payload: &Vec<u8>) -> (r: Result<(), SceneError>)
        requires
            old(scene).wf(),
        ensures
            final(scene).wf(),
            final(scene).triggered(*old(scene), self.node, "emoji_select"@, payload@, r),
    {
        proof {
            reveal_strlit("emoji_select");
        }
        scene.trigger(self.node, &name_of("emoji_select"), payload)
    }

    /// The emoji that a release at `pos` selects: `pos` is inside the
    /// picker's rectangle and picks an emoji (see [`emoji_at_spec`]).
    pub open spec fn release_target(&self, scene: SceneGraph, pos: Point, n: int) -> Option<int> {
        match picker_params(scene, self.node) {
            Some((rect, size, scroll)) => if coord_ok(pos.x as int) && coord_ok(pos.y as int) && rect.contains_spec(pos) {
                let p = Point { x: (pos.x - rect.x) as i64, y: (pos.y - rect.y) as i64 };
                emoji_at_spec(p, scroll as int, rect.w as int, size as int, n)
            } else {
                None
            },
            None => None,
        }
    }

    /// Whether `new` and `r` are what a mouse button release gives from
    /// `old` (see [`EmojiPicker::handle_mouse_btn_up`]).
    pub open spec fn release_done(&self, old: SceneGraph, new: SceneGraph, pos: Point, payloads: Seq<Vec<u8>>, r: (bool, Result<Option<u64>, SceneError>)) -> bool {
        &&& r.0 == (rect_of(old, self.node) matches Some(rect) && rect.contains_spec(pos))
        &&& match self.release_target(old, pos, payloads.len() as int) {
            None => r.1 == Ok::<Option<u64>, SceneError>(None) && new == old,
            Some(k) => match r.1 {
                Ok(Some(j)) => j == k && new.triggered(old, self.node, "emoji_select"@, payloads[k]@, Ok(())),
                Ok(None) => false,
                Err(e) => new.triggered(old, self.node, "emoji_select"@, payloads[k]@, Err(e)),
            },
        }
    }

    /// A mouse button release at `pos`. It is taken (the first part of the
    /// result) where `pos` lies in the node's rectangle. Where it selects
    /// emoji `k` (see [`EmojiPicker::release_target`]), `payloads[k]` is
    /// published on `emoji_select` and `k` returned, or the trigger's error
    /// where it fails; `Ok(None)` where nothing is selected.
    pub fn handle_mouse_btn_up(&self, scene: &mut SceneGraph, pos: Point, payloads: &Vec<Vec<u8>>) -> (r: (bool, Result<Option<u64>, SceneError>))
        requires
            old(scene).wf(),
            payloads@.len() <= MAX_EMOJIS,
        ensures
            final(scene).wf(),
            self.release_done(*old(scene), *final(scene), pos, payloads@, r),
    {
        let taken = match read_rect(scene, self.node) {
            Some(rect) => rect.contains(&pos),
            None => false,
        };
        (taken, self.select_at(scene, pos, payloads))
    }

    fn select_at(&self, scene: &mut SceneGraph, pos: Point, payloads: &Vec<Vec<u8>>) -> (r: Result<Option<u64>, SceneError>)
        requires
            old(scene).wf(),
            payloads@.len() <= MAX_EMOJIS,
        ensures
            final(scene).wf(),
            match self.release_target(*old(scene), pos, payloads@.len() as int) {
                None => r == Ok::<Option<u64>, SceneError>(None) && *final(scene) == *old(scene),
                Some(k) => match r {
                    Ok(Some(j)) => j == k && final(scene).triggered(*old(scene), self.node, "emoji_select"@, payloads@[k]@, Ok(())),
                    Ok(None) => false,
                    Err(e) => final(scene).triggered(*old(scene), self.node, "emoji_select"@, payloads@[k]@, Err(e)),
                },
            },
    {
        let (rect, size, scroll) = match self.params(scene) {
            Some(p) => p,
            None => return Ok(None),
        };
        if !(-0x100_0000_0000 <= pos.x && pos.x <= 0x100_0000_0000 && -0x100_0000_0000 <= pos.y
            && pos.y <= 0x100_0000_0000) {
            return Ok(None);
        }
        if !rect.contains(&pos) {
            return Ok(None);
        }
        let p = Point { x: pos.x - rect.x, y: pos.y - rect.y };
        match emoji_at(p, scroll, rect.w, size, payloads.len() as u64) {
            Some(k) => match self.select_emoji(scene, &payloads[k as usize]) {
                Ok(()) => Ok(Some(k)),
                Err(e) => Err(e),
            },
            None => Ok(None),
        }
    }

    /// The grid a touch event is decided against: the picker's rectangle,
    /// emoji size, scroll and largest scroll (none where the rows never
    /// end), where its properties, the touch and the tracked touch are in
    /// range.
    pub open spec fn touch_grid(&self, scene: SceneGraph, touch: Point, n: int) -> Option<(Rectangle, i64, i64, Option<i64>)> {
        match picker_params(scene, self.node) {
            Some((rect, size, scroll)) => {
                let info_ok = match self.touch_info {
                    Some(t) => coord_ok(t.start_pos.y as int) && coord_ok(t.start_scroll as int),
                    None => true,
                };
                if coord_ok(touch.x as int) && coord_ok(touch.y as int) && info_ok {
                    Some((rect, size, scroll, max_bound(n, rect.w as int, rect.h as int, size as int)))
                } else {
                    None
                }
            },
            None => None,
        }
    }

    /// Whether `new_info`, `new` and `r` are what a touch event gives from
    /// this picker and `old` (see [`EmojiPicker::handle_touch`]).
    pub open spec fn touch_done(&self, new_info: Option<TouchInfo>, old: SceneGraph, new: SceneGraph, phase: TouchPhase, id: u64, touch: Point, payloads: Seq<Vec<u8>>, r: (bool, Option<u64>, Result<(), SceneError>)) -> bool {
        match self.touch_grid(old, touch, payloads.len() as int) {
            None => r == (false, None::<u64>, Ok::<(), SceneError>(())) && new == old
                && new_info == self.touch_info,
            Some((rect, size, scroll, max)) => {
                let out = touch_spec(self.touch_info, phase, id, touch, rect, scroll, max);
                &&& r.0 == out.handled
                &&& new_info == out.info
                &&& match (out.scroll, out.click) {
                    (Some(v), _) => r.1 is None && new.set_outcome(
                        old, self.node, "scroll"@, Role::Internal, 0, Value::Num(v), r.2,
                    ),
                    (None, Some(p)) => match emoji_at_spec(p, scroll as int, rect.w as int, size as int, payloads.len() as int) {
                        Some(k) => r.1 == Some(k as u64) && new.triggered(
                            old, self.node, "emoji_select"@, payloads[k]@, r.2,
                        ),
                        None => r.1 is None && r.2 == Ok::<(), SceneError>(()) && new == old,
                    },
                    (None, None) => r.1 is None && r.2 == Ok::<(), SceneError>(()) && new == old,
                }
            },
        }
    }

    /// Applies the picker's decision on a touch event (see [`touch_spec`]):
    /// tracks the touch, stores a new scroll, or publishes the tapped emoji
    /// `payloads[k]` on `emoji_select`. The result is whether the event was
    /// taken, the tapped emoji, and the outcome of the scene operation.
    pub fn handle_touch(&mut self, scene: &mut SceneGraph, phase: TouchPhase, id: u64, touch: Point, payloads: &Vec<Vec<u8>>) -> (r: (bool, Option<u64>, Result<(), SceneError>))
        requires
            old(scene).wf(),
            payloads@.len() <= MAX_EMOJIS,
        ensures
            final(scene).wf(),
            final(self).node == old(self).node,
            final(self).dc_key == old(self).dc_key,
            final(self).parent_rect == old(self).parent_rect,
            final(self).is_mouse_hover == old(self).is_mouse_hover,
            old(self).touch_done(final(self).touch_info, *old(scene), *final(scene), phase, id, touch, payloads@, r),
    {
        let (rect, size, scroll) = match self.params(scene) {
            Some(p) => p,
            None => return (false, None, Ok(())),
        };
        if !(-0x100_0000_0000 <= touch.x && touch.x <= 0x100_0000_0000 && -0x100_0000_0000 <= touch.y
            && touch.y <= 0x100_0000_0000) {
            return (false, None, Ok(()));
        }
        let info_ok = match self.touch_info {
            Some(t) => -0x100_0000_0000 <= t.start_pos.y && t.start_pos.y <= 0x100_0000_0000
                && -0x100_0000_0000 <= t.start_scroll && t.start_scroll <= 0x100_0000_0000,
            None => true,
        };
        if !info_ok {
            return (false, None, Ok(()));
        }
        let n = payloads.len() as u64;
        let max = max_scroll(n, rect.w, rect.h, size);
        let out = crate::picker::handle_touch(self.touch_info, phase, id, touch, rect, scroll, max);
        self.touch_info = out.info;
        match out.scroll {
            Some(s) => {
                let w = self.store_scroll(scene, s);
                return (out.handled, None, w);
            },
            None => {},
        }
        match out.click {
            Some(p) => match emoji_at(p, scroll, rect.w, size, n) {
                Some(k) => {
                    let w = self.select_emoji(scene, &payloads[k as usize]);
                    (out.handled, Some(k), w)
                },
                None => (out.handled, None, Ok(())),
            },
            None => (out.handled, None, Ok(())),
        }
    }

    /// Ends this picker: its entry in the registry is replaced by an empty
    /// one, and other keys' entries stay where and as they were.
    pub fn destroy(self, registry: &mut DrawRegistry, timestamp: u64)
        requires
            old(registry).wf(),
        ensures
            final(registry).wf(),
            final(registry).timestamp == timestamp,
            exists|dc: DrawCall| dc.instrs@.len() == 0
                && final(registry).entries@ == put(old(registry).entries@, self.dc_key, dc),
            exists|i: int| 0 <= i < final(registry).entries@.len()
                && final(registry).entries@[i].0 == self.dc_key
                && final(registry).entries@[i].1.instrs@.len() == 0,
            forall|i: int| 0 <= i < old(registry).entries@.len() && old(registry).entries@[i].0 != self.dc_key
                ==> final(registry).entries@[i] == old(registry).entries@[i],
    {
        let dc = DrawCall::empty();
        let ghost g = dc;
        let mut calls: Vec<(u64, DrawCall)> = Vec::new();
        calls.push((self.dc_key, dc));
        assert(calls@.skip(1).len() == 0);
        assert(put_all(put(registry.entries@, self.dc_key, g), calls@.skip(1))
            == put(registry.entries@, self.dc_key, g));
        proof {
            lemma_put(registry.entries@, self.dc_key, g);
        }
        registry.replace_draw_calls(timestamp, calls);
    }
}

/// The visual objects, one variant per kind; each dispatch is one match.
#[derive(Debug)]
pub enum Visual {
    VectorArt(VectorArt),
    EmojiPicker(EmojiPicker),
}

impl Visual {
    pub open spec fn node_spec(&self) -> u64 {
        match self {
            Visual::VectorArt(v) => v.node,
            Visual::EmojiPicker(p) => p.node,
        }
    }

    pub open spec fn key_spec(&self) -> u64 {
        match self {
            Visual::VectorArt(v) => v.dc_key,
            Visual::EmojiPicker(p) => p.dc_key,
        }
    }

    /// The node the object draws.
    pub fn node(&self) -> (r: u64)
        ensures
            r == self.node_spec(),
    {
        match self {
            Visual::VectorArt(v) => v.node,
            Visual::EmojiPicker(p) => p.node,
        }
    }

    /// The object's key in the draw-call registry.
    pub fn dc_key(&self) -> (r: u64)
        ensures
            r == self.key_spec(),
    {
        match self {
            Visual::VectorArt(v) => v.dc_key,
            Visual::EmojiPicker(p) => p.dc_key,
        }
    }

    /// The properties the object redraws on, in subscription order.
    pub open spec fn watched(&self) -> Seq<Seq<char>> {
        match self {
            Visual::VectorArt(_) => seq!["is_visible"@, "rect"@, "z_index"@],
            Visual::EmojiPicker(_) => seq!["rect"@, "z_index"@],
        }
    }

    /// Subscribes the object, by its key, to the properties it redraws on.
    pub fn start(&self, subs: &mut Subscriptions)
        ensures
            final(subs).subs@.len() == old(subs).subs@.len() + self.watched().len(),
            final(subs).subs@.subrange(0, old(subs).subs@.len() as int) == old(subs).subs@,
            forall|k: int| 0 <= k < self.watched().len() ==> {
                let t = #[trigger] final(subs).subs@[old(subs).subs@.len() + k];
                t.object == self.key_spec() && t.node == self.node_spec() && t.prop@ == self.watched()[k]
            },
    {
        match self {
            Visual::VectorArt(v) => v.start(subs),
            Visual::EmojiPicker(p) => p.start(subs),
        }
    }

    /// Remembers `parent` and computes the object's entry for it. Vector art
    /// ignores `meshes` and stores nothing beyond its rectangle, so its
    /// second part is always `Ok`.
    pub fn draw(&mut self, scene: &mut SceneGraph, parent: &Rectangle, meshes: Vec<DrawMesh>) -> (r: Option<(DrawUpdate, Result<(), SceneError>)>)
        requires
            old(scene).wf(),
            meshes@.len() <= MAX_EMOJIS,
        ensures
            final(scene).wf(),
            match *old(self) {
                Visual::VectorArt(v) => {
                    &&& *final(self) matches Visual::VectorArt(w) && w.parent_rect == Some(*parent) && w.node == v.node
                        && w.shape == v.shape && w.dc_key == v.dc_key
                    &&& v.rect_evaluated(*old(scene), *final(scene), *parent)
                    &&& r is Some == v.draws_after(*old(scene), *final(scene), *parent)
                    &&& r matches Some((u, w)) ==> w is Ok && u.key == v.dc_key && u.draw_calls@.len() == 1
                        && u.draw_calls@[0].0 == v.dc_key && v.entry_for(*final(scene), u.draw_calls@[0].1)
                },
                Visual::EmojiPicker(p) => {
                    &&& *final(self) matches Visual::EmojiPicker(q) && q.parent_rect == Some(*parent) && q.node == p.node
                        && q.dc_key == p.dc_key && q.is_mouse_hover == p.is_mouse_hover && q.touch_info == p.touch_info
                    &&& p.drawn(*old(scene), *final(scene), *parent, meshes@, r)
                },
            },
    {
        match self {
            Visual::VectorArt(v) => match v.draw(scene, parent) {
                Some(u) => Some((u, Ok(()))),
                None => None,
            },
            Visual::EmojiPicker(p) => p.draw(scene, parent, meshes),
        }
    }

    /// The mouse moved to `pos`; never taken. A picker tracks whether the
    /// mouse is over its rectangle.
    pub fn handle_mouse_move(&mut self, scene: &SceneGraph, pos: Point) -> (r: bool)
        requires
            scene.wf(),
        ensures
            !r,
            match *old(self) {
                Visual::VectorArt(v) => *final(self) == Visual::VectorArt(v),
                Visual::EmojiPicker(p) => *final(self) matches Visual::EmojiPicker(q) && q.node == p.node
                    && q.dc_key == p.dc_key && q.parent_rect == p.parent_rect && q.touch_info == p.touch_info
                    && q.is_mouse_hover == (rect_of(*scene, p.node) matches Some(rect) && rect.contains_spec(pos)),
            },
    {
        match self {
            Visual::VectorArt(_) => false,
            Visual::EmojiPicker(p) => p.handle_mouse_move(scene, pos),
        }
    }

    /// A mouse wheel movement: vector art never takes it; a picker scrolls
    /// (see [`EmojiPicker::handle_mouse_wheel`]).
    pub fn handle_mouse_wheel(&self, scene: &mut SceneGraph, wheel_y: i64, n_emojis: u64) -> (r: Result<bool, SceneError>)
        requires
            old(scene).wf(),
            n_emojis <= MAX_EMOJIS,
        ensures
            final(scene).wf(),
            match *self {
                Visual::VectorArt(_) => r == Ok::<bool, SceneError>(false) && *final(scene) == *old(scene),
                Visual::EmojiPicker(p) => p.wheel_done(*old(scene), *final(scene), wheel_y, n_emojis as int, r),
            },
    {
        match self {
            Visual::VectorArt(_) => Ok(false),
            Visual::EmojiPicker(p) => p.handle_mouse_wheel(scene, wheel_y, n_emojis),
        }
    }

    /// A mouse button release: vector art never takes it; a picker selects
    /// an emoji (see [`EmojiPicker::handle_mouse_btn_up`]).
    pub fn handle_mouse_btn_up(&self, scene: &mut SceneGraph, pos: Point, payloads: &Vec<Vec<u8>>) -> (r: (bool, Result<Option<u64>, SceneError>))
        requires
            old(scene).wf(),
            payloads@.len() <= MAX_EMOJIS,
        ensures
            final(scene).wf(),
            match *self {
                Visual::VectorArt(_) => r == (false, Ok::<Option<u64>, SceneError>(None)) && *final(scene) == *old(scene),
                Visual::EmojiPicker(p) => p.release_done(*old(scene), *final(scene), pos, payloads@, r),
            },
    {
        match self {
            Visual::VectorArt(_) => (false, Ok(None)),
            Visual::EmojiPicker(p) => p.handle_mouse_btn_up(scene, pos, payloads),
        }
    }

    /// A touch event: vector art never takes it; a picker tracks, scrolls
    /// or taps (see [`EmojiPicker::handle_touch`]).
    pub fn handle_touch(&mut self, scene: &mut SceneGraph, phase: TouchPhase, id: u64, touch: Point, payloads: &Vec<Vec<u8>>) -> (r: (bool, Option<u64>, Result<(), SceneError>))
        requires
            old(scene).wf(),
            payloads@.len() <= MAX_EMOJIS,
        ensures
            final(scene).wf(),
            match *old(self) {
                Visual::VectorArt(v) => r == (false, None::<u64>, Ok::<(), SceneError>(())) && *final(scene) == *old(scene)
                    && *final(self) == Visual::VectorArt(v),
                Visual::EmojiPicker(p) => *final(self) matches Visual::EmojiPicker(q) && q.node == p.node
                    && q.dc_key == p.dc_key && q.parent_rect == p.parent_rect && q.is_mouse_hover == p.is_mouse_hover
                    && p.touch_done(q.touch_info, *old(scene), *final(scene), phase, id, touch, payloads@, r),
            },
    {
        match self {
            Visual::VectorArt(_) => (false, None, Ok(())),
            Visual::EmojiPicker(p) => p.handle_touch(scene, phase, id, touch, payloads),
        }
    }

    /// The draw order among siblings: the node's `priority` property.
    pub fn priority(&self, scene: &SceneGraph) -> (r: Option<u32>)
        requires
            scene.wf(),
        ensures
            r == u32_of(*scene, self.node_spec(), "priority"@),
    {
        match self {
            Visual::VectorArt(v) => v.priority(scene),
            Visual::EmojiPicker(p) => p.priority(scene),
        }
    }

    /// Ends the object: its registry entry is replaced by an empty one, and
    /// other keys' entries stay where and as they were.
    pub fn destroy(self, registry: &mut DrawRegistry, timestamp: u64)
        requires
            old(registry).wf(),
        ensures
            final(registry).wf(),
            final(registry).timestamp == timestamp,
            exists|dc: DrawCall| dc.instrs@.len() == 0
                && final(registry).entries@ == put(old(registry).entries@, self.key_spec(), dc),
            exists|i: int| 0 <= i < final(registry).entries@.len()
                && final(registry).entries@[i].0 == self.key_spec()
                && final(registry).entries@[i].1.instrs@.len() == 0,
            forall|i: int| 0 <= i < old(registry).entries@.len() && old(registry).entries@[i].0 != self.key_spec()
                ==> final(registry).entries@[i] == old(registry).entries@[i],
    {
        let ghost key = self.key_spec();
        match self {
            Visual::VectorArt(v) => {
                assert(v.dc_key == key);
                v.destroy(registry, timestamp);
            },
            Visual::EmojiPicker(p) => {
                assert(p.dc_key == key);
                p.destroy(registry, timestamp);
            },
        }
        let ghost dc = choose|dc: DrawCall| dc.instrs@.len() == 0
            && registry.entries@ == put(old(registry).entries@, key, dc);
        assert(dc.instrs@.len() == 0 && registry.entries@ == put(old(registry).entries@, key, dc));
    }
}

} // verus!
