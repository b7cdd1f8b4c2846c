use vstd::prelude::*;

use crate::emotion_engine::gs::registers::{PrimitiveType, Xyz};
use crate::emotion_engine::gs::{Gs, Vertex};

verus! {

/// A primitive that a vertex kick completes, by its vertices in drawing order.
#[derive(Clone, Copy)]
pub enum Drawing {
    Point(Vertex),
    Line(Vertex, Vertex),
    Triangle(Vertex, Vertex, Vertex),
    Sprite(Vertex, Vertex),
}

/// The vertex that the drawing registers hold.
pub open spec fn current_vertex(gs: Gs) -> Vertex {
    Vertex {
        position: Xyz { x: gs.registers.xyz.x, y: gs.registers.xyz.y, z: gs.registers.xyz.z },
        color: gs.registers.rgbaq,
        uv: gs.registers.uv,
    }
}

/// What a kick of `vertex` does to the waiting vertices `queue` for primitives of type
/// `kind`: the waiting vertices after it, and the primitive it completes, if any. Points draw
/// alone; lines and sprites take the waiting vertex and leave none; a line strip keeps the
/// new vertex; triangles take the two waiting vertices and leave none, a strip keeps the
/// second and the new one, a fan the first and the new one.
pub open spec fn kicked(queue: Seq<Vertex>, kind: PrimitiveType, vertex: Vertex) -> (
    Seq<Vertex>,
    Option<Drawing>,
) {
    match kind {
        PrimitiveType::Point => (Seq::empty(), Some(Drawing::Point(vertex))),
        PrimitiveType::Line => if queue.len() > 0 {
            (Seq::empty(), Some(Drawing::Line(queue.last(), vertex)))
        } else {
            (queue.push(vertex), None)
        },
        PrimitiveType::LineStrip => if queue.len() > 0 {
            (seq![vertex], Some(Drawing::Line(queue.last(), vertex)))
        } else {
            (queue.push(vertex), None)
        },
        PrimitiveType::Triangle => if queue.len() == 2 {
            (Seq::empty(), Some(Drawing::Triangle(queue[0], queue[1], vertex)))
        } else {
            (queue.push(vertex), None)
        },
        PrimitiveType::TriangleStrip => if queue.len() == 2 {
            (seq![queue[1], vertex], Some(Drawing::Triangle(queue[0], queue[1], vertex)))
        } else {
            (queue.push(vertex), None)
        },
        PrimitiveType::TriangleFan => if queue.len() == 2 {
            (seq![queue[0], vertex], Some(Drawing::Triangle(queue[0], queue[1], vertex)))
        } else {
            (queue.push(vertex), None)
        },
        PrimitiveType::Sprite => if queue.len() > 0 {
            (Seq::empty(), Some(Drawing::Sprite(queue.last(), vertex)))
        } else {
            (queue.push(vertex), None)
        },
        PrimitiveType::SpecificationProhibited => (queue, None),
    }
}

impl Gs {
    /// Adds the vertex of the drawing registers to the primitive being built. The result is
    /// the primitive it completes, for drawing, when `drawing_kick` is set; the waiting
    /// vertices change either way.
    pub fn vertex_kick(&mut self, drawing_kick: bool) -> (r: Option<Drawing>)
        requires
            old(self).wf(),
            old(self).registers.primitive.type_ != PrimitiveType::SpecificationProhibited,
        ensures
            final(self).wf(),
            final(self).vertex_queue.view() == kicked(
                old(self).vertex_queue.view(),
                old(self).registers.primitive.type_,
                current_vertex(*old(self)),
            ).0,
            r == if drawing_kick {
                kicked(
                    old(self).vertex_queue.view(),
                    old(self).registers.primitive.type_,
                    current_vertex(*old(self)),
                ).1
            } else {
                None
            },
            final(self).local_memory == old(self).local_memory,
            final(self).registers == old(self).registers,
            final(self).privileged_registers == old(self).privileged_registers,
            final(self).command_queue == old(self).command_queue,
            final(self).tmp_data == old(self).tmp_data,
    {
        let vertex = Vertex {
            position: Xyz { x: self.registers.xyz.x, y: self.registers.xyz.y, z: self.registers.xyz.z },
            color: self.registers.rgbaq,
            uv: self.registers.uv,
        };
        proof {
            self.vertex_queue.lemma_len_bound();
        }
        let ghost queue = self.vertex_queue.view();
        let drawing = match self.registers.primitive.type_ {
            PrimitiveType::Point => {
                self.vertex_queue.clear();
                Some(Drawing::Point(vertex))
            },
            PrimitiveType::Line => match self.vertex_queue.pop_back() {
                Some(vertex1) => {
                    self.vertex_queue.clear();
                    Some(Drawing::Line(vertex1, vertex))
                },
                None => {
                    self.vertex_queue.push_back(vertex);
                    None
                },
            },
            PrimitiveType::LineStrip => match self.vertex_queue.pop_back() {
                Some(vertex1) => {
                    self.vertex_queue.clear();
                    self.vertex_queue.push_back(vertex);
                    assert(self.vertex_queue.view() =~= seq![vertex]);
                    Some(Drawing::Line(vertex1, vertex))
                },
                None => {
                    self.vertex_queue.push_back(vertex);
                    None
                },
            },
            PrimitiveType::Triangle => if self.vertex_queue.len() == 2 {
                let vertex2 = self.vertex_queue.pop_back().unwrap();
                let vertex1 = self.vertex_queue.pop_back().unwrap();
                assert(self.vertex_queue.view() =~= Seq::<Vertex>::empty());
                Some(Drawing::Triangle(vertex1, vertex2, vertex))
            } else {
                self.vertex_queue.push_back(vertex);
                None
            },
            PrimitiveType::TriangleStrip => if self.vertex_queue.len() == 2 {
                let vertex1 = self.vertex_queue.pop_front().unwrap();
                let vertex2 = self.vertex_queue.front().unwrap();
                self.vertex_queue.push_back(vertex);
                assert(self.vertex_queue.view() =~= seq![queue[1], vertex]);
                Some(Drawing::Triangle(vertex1, vertex2, vertex))
            } else {
                self.vertex_queue.push_back(vertex);
                None
            },
            PrimitiveType::TriangleFan => if self.vertex_queue.len() == 2 {
                let vertex1 = self.vertex_queue.front().unwrap();
                let vertex2 = self.vertex_queue.pop_back().unwrap();
                self.vertex_queue.push_back(vertex);
                assert(self.vertex_queue.view() =~= seq![queue[0], vertex]);
                Some(Drawing::Triangle(vertex1, vertex2, vertex))
            } else {
                self.vertex_queue.push_back(vertex);
                None
            },
            PrimitiveType::Sprite => match self.vertex_queue.pop_back() {
                Some(vertex1) => {
                    self.vertex_queue.clear();
                    Some(Drawing::Sprite(vertex1, vertex))
                },
                None => {
                    self.vertex_queue.push_back(vertex);
                    None
                },
            },
            PrimitiveType::SpecificationProhibited => None,
        };
        if drawing_kick {
            drawing
        } else {
            None
        }
    }
}

} // verus!
