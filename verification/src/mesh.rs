//! The layout of a vertex buffer: which bytes of a vertex belong to which
//! attribute.

use vstd::prelude::*;
use vstd::string::StringExecFns;

verus! {

/// The code of the 32-bit float among the component types of OpenGL.
pub const GL_FLOAT: u32 = 0x1406;

/// One attribute of a vertex: a name and a number of components of one type.
#[derive(Debug, PartialEq, Eq)]
pub struct Attrib {
    pub name: String,
    pub gl_type: u32,
    pub element_count: i32,
}

/// Where an attribute lies in a buffer of vertices.
#[derive(Clone, Copy, Debug, PartialEq, Eq, Structural)]
pub struct AttribPointer {
    pub element_count: i32,
    /// Bytes from one vertex to the next.
    pub stride: i32,
    /// Bytes from the start of a vertex to the attribute.
    pub offset: i32,
}

/// The bytes that `attribs` take up side by side: four for each component.
pub open spec fn total_size(attribs: Seq<Attrib>) -> int
    decreases attribs.len(),
{
    if attribs.len() == 0 {
        0
    } else {
        total_size(attribs.drop_last()) + 4 * attribs.last().element_count
    }
}

/// Every attribute is made of floats, and the size of each attribute and of
/// each run of attributes from the first one on fits in `i32`.
pub open spec fn layout_fits(attribs: Seq<Attrib>) -> bool {
    &&& forall|i: int|
        0 <= i < attribs.len() ==> (#[trigger] attribs[i]).gl_type == GL_FLOAT && i32::MIN <= 4
            * attribs[i].element_count <= i32::MAX
    &&& forall|k: int|
        0 <= k <= attribs.len() ==> i32::MIN <= #[trigger] total_size(attribs.take(k)) <= i32::MAX
}

/// The pointer of each of `attribs` when they lie side by side in the order
/// given.
pub open spec fn pointers_of(attribs: Seq<Attrib>) -> Seq<AttribPointer> {
    Seq::new(
        attribs.len(),
        |i: int|
            AttribPointer {
                element_count: attribs[i].element_count,
                stride: total_size(attribs) as i32,
                offset: total_size(attribs.take(i)) as i32,
            },
    )
}

impl Attrib {
    /// The bytes the attribute takes up in a vertex.
    pub fn byte_size(&self) -> (size: i32)
        requires
            self.gl_type == GL_FLOAT,
            i32::MIN <= 4 * self.element_count <= i32::MAX,
        ensures
            size == 4 * self.element_count,
    {
        4 * self.element_count
    }
}

/// The bytes from one vertex to the next.
pub fn stride_of(attribs: &Vec<Attrib>) -> (stride: i32)
    requires
        layout_fits(attribs@),
    ensures
        stride == total_size(attribs@),
{
    let mut stride: i32 = 0;
    let mut i: usize = 0;
    proof {
        assert(attribs@.take(0) =~= Seq::<Attrib>::empty());
    }
    while i < attribs.len()
        invariant
            i <= attribs.len(),
            layout_fits(attribs@),
            stride == total_size(attribs@.take(i as int)),
        decreases attribs.len() - i,
    {
        proof {
            let next = attribs@.take(i + 1);
            assert(next.drop_last() =~= attribs@.take(i as int));
            assert(next.last() == attribs@[i as int]);
            assert(total_size(next) == total_size(attribs@.take(i as int)) + 4
                * attribs@[i as int].element_count);
        }
        stride = stride + attribs[i].byte_size();
        i += 1;
    }
    proof {
        assert(attribs@.take(i as int) =~= attribs@);
    }
    stride
}

/// Lays the attributes out side by side: the pointer of each, in the order
/// given.
pub fn attrib_pointers(attribs: &Vec<Attrib>) -> (pointers: Vec<AttribPointer>)
    requires
        layout_fits(attribs@),
    ensures
        pointers@ == pointers_of(attribs@),
{
    let stride = stride_of(attribs);
    let mut pointers: Vec<AttribPointer> = Vec::new();
    let mut offset: i32 = 0;
    let mut i: usize = 0;
    proof {
        assert(attribs@.take(0) =~= Seq::<Attrib>::empty());
    }
    while i < attribs.len()
        invariant
            i <= attribs.len(),
            layout_fits(attribs@),
            stride == total_size(attribs@),
            offset == total_size(attribs@.take(i as int)),
            pointers@.len() == i,
            forall|j: int| 0 <= j < i ==> pointers@[j] == pointers_of(attribs@)[j],
        decreases attribs.len() - i,
    {
        proof {
            let next = attribs@.take(i + 1);
            assert(next.drop_last() =~= attribs@.take(i as int));
            assert(next.last() == attribs@[i as int]);
            assert(total_size(next) == total_size(attribs@.take(i as int)) + 4
                * attribs@[i as int].element_count);
        }
        pointers.push(AttribPointer { element_count: attribs[i].element_count, stride, offset });
        offset = offset + attribs[i].byte_size();
        i += 1;
    }
    proof {
        assert(pointers@ =~= pointers_of(attribs@));
    }
    pointers
}

/// The attributes of a text vertex: a position and a texture coordinate of
/// two floats each.
pub fn vertex_attribs() -> (attribs: Vec<Attrib>)
    ensures
        attribs@.len() == 2,
        attribs@[0].name@ == "position"@,
        attribs@[1].name@ == "tex_coords"@,
        forall|i: int| 0 <= i < 2 ==> (#[trigger] attribs@[i]).gl_type == GL_FLOAT && attribs@[i].element_count == 2,
        layout_fits(attribs@),
        total_size(attribs@) == 16,
{
    let mut attribs: Vec<Attrib> = Vec::new();
    attribs.push(Attrib { name: String::from_str("position"), gl_type: GL_FLOAT, element_count: 2 });
    attribs.push(
        Attrib { name: String::from_str("tex_coords"), gl_type: GL_FLOAT, element_count: 2 },
    );
    proof {
        reveal_with_fuel(total_size, 3);
        assert forall|k: int| 0 <= k <= attribs@.len() implies i32::MIN <= #[trigger] total_size(
            attribs@.take(k),
        ) <= i32::MAX by {
            if k == 0 {
                assert(attribs@.take(0) =~= Seq::<Attrib>::empty());
            } else if k == 1 {
                assert(attribs@.take(1).drop_last() =~= Seq::<Attrib>::empty());
            } else {
                assert(attribs@.take(2) =~= attribs@);
                assert(attribs@.drop_last().drop_last() =~= Seq::<Attrib>::empty());
            }
        }
        assert(attribs@.drop_last().drop_last() =~= Seq::<Attrib>::empty());
    }
    attribs
}

} // verus!
