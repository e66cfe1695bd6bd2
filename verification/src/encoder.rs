//! The encoder of parameter trees.
//!
//! A request's parameters form a tree. Each node is written as a TLV: its type,
//! a length, its own fixed fields, then its children. The length is not known
//! when the header is written: a placeholder goes out first and is overwritten
//! once the subtree has been emitted.

use crate::parameter_types::LlrpParameterType;
use crate::wire::{
    buffer_len, contents, lemma_u16_round_trip, put_u16, set_byte, u16_at, u16_be_bytes,
};
use bytes::BytesMut;
use vstd::prelude::*;

verus! {

/// A node of a parameter tree: a type and the parameters nested in it.
#[derive(Debug)]
pub struct Parameter {
    pub param_type: LlrpParameterType,
    pub payload: Vec<Parameter>,
}

/// Where the fixed fields of the parameters come from.
pub trait FixedFields {
    /// The fixed fields of a parameter of the given type.
    spec fn spec_fixed_fields(&self, param_type: LlrpParameterType) -> Seq<u8>;

    /// Appends the fixed fields of a parameter of the given type to `buffer`.
    fn write_fixed_fields(&self, param_type: LlrpParameterType, buffer: &mut BytesMut)
        ensures
            contents(*final(buffer)) == contents(*old(buffer)) + self.spec_fixed_fields(param_type),
    ;
}

/// The length field of a parameter that occupies `total` octets: the low 16 bits
/// of the count.
pub open spec fn spec_length_field(total: nat) -> u16 {
    (total % 0x1_0000) as u16
}

/// A TLV parameter: the type, the length of the whole, and the body.
pub open spec fn spec_tlv(param_type: LlrpParameterType, body: Seq<u8>) -> Seq<u8> {
    u16_be_bytes(param_type.spec_value()) + u16_be_bytes(spec_length_field(4 + body.len())) + body
}

/// A TLV parameter occupies four octets more than its body.
pub proof fn lemma_tlv_len(param_type: LlrpParameterType, body: Seq<u8>)
    ensures
        spec_tlv(param_type, body).len() == 4 + body.len(),
{
}

/// The encodings of the first `n` of `children`, one after the other.
pub open spec fn spec_encode_children<W: FixedFields>(
    children: Seq<Parameter>,
    fields: &W,
    n: nat,
) -> Seq<u8>
    decreases children, n,
{
    if n == 0 || n > children.len() {
        Seq::empty()
    } else {
        spec_encode_children(children, fields, (n - 1) as nat) + spec_encode_parameter(
            children[n - 1],
            fields,
        )
    }
}

/// What follows the header of a parameter: its fixed fields, then its children.
pub open spec fn spec_parameter_body<W: FixedFields>(param: Parameter, fields: &W) -> Seq<u8>
    decreases param, 1nat, 0nat,
{
    fields.spec_fixed_fields(param.param_type) + spec_encode_children(
        param.payload@,
        fields,
        param.payload@.len(),
    )
}

/// The encoding of a parameter tree.
pub open spec fn spec_encode_parameter<W: FixedFields>(param: Parameter, fields: &W) -> Seq<u8>
    decreases param, 2nat, 0nat,
{
    spec_tlv(param.param_type, spec_parameter_body(param, fields))
}

/// Appends the encoding of a parameter tree to `buffer`.
///
/// The header goes out with a length of 0, then the fixed fields and the
/// children; the length is then overwritten with the number of octets emitted
/// for the subtree.
pub fn encode_parameter<W: FixedFields>(param: &Parameter, buffer: &mut BytesMut, fields: &W)
    ensures
        contents(*final(buffer)) == contents(*old(buffer)) + spec_encode_parameter(*param, fields),
    decreases param,
{
    let ghost before = contents(*buffer);
    let initial_length_pos: usize = buffer_len(buffer);

    put_u16(buffer, param.param_type.value());
    put_u16(buffer, 0);
    fields.write_fixed_fields(param.param_type, buffer);

    let mut i: usize = 0;
    while i < param.payload.len()
        invariant
            i <= param.payload@.len(),
            contents(*buffer) == before + u16_be_bytes(param.param_type.spec_value())
                + u16_be_bytes(0) + fields.spec_fixed_fields(param.param_type)
                + spec_encode_children(param.payload@, fields, i as nat),
        decreases param.payload@.len() - i,
    {
        encode_parameter(&param.payload[i], buffer, fields);
        i = i + 1;
    }

    let final_length_pos: usize = buffer_len(buffer);
    let actual_length: u16 = ((final_length_pos - initial_length_pos) % 0x1_0000) as u16;
    set_byte(buffer, initial_length_pos + 2, (actual_length / 256) as u8);
    set_byte(buffer, initial_length_pos + 3, (actual_length % 256) as u8);
}

/// The first `k` children are written before the first `n`, for `k` up to `n`.
pub proof fn lemma_children_prefix<W: FixedFields>(
    children: Seq<Parameter>,
    fields: &W,
    k: nat,
    n: nat,
)
    requires
        k <= n <= children.len(),
    ensures
        spec_encode_children(children, fields, k).len() <= spec_encode_children(
            children,
            fields,
            n,
        ).len(),
        spec_encode_children(children, fields, n).subrange(
            0,
            spec_encode_children(children, fields, k).len() as int,
        ) == spec_encode_children(children, fields, k),
    decreases n,
{
    if k < n {
        lemma_children_prefix(children, fields, k, (n - 1) as nat);
    }
}

/// Where the encoding of the `k`-th child starts in the encoding of its parent:
/// behind the header, the fixed fields and the children before it.
pub open spec fn spec_child_offset<W: FixedFields>(param: Parameter, fields: &W, k: int) -> int {
    4int + fields.spec_fixed_fields(param.param_type).len() + spec_encode_children(
        param.payload@,
        fields,
        k as nat,
    ).len()
}

/// The encoding of a parameter holds the encoding of each of its children whole,
/// at the child's offset.
pub proof fn lemma_child_is_embedded<W: FixedFields>(param: Parameter, fields: &W, k: int)
    requires
        0 <= k < param.payload@.len(),
    ensures
        spec_child_offset(param, fields, k) + spec_encode_parameter(
            param.payload@[k],
            fields,
        ).len() <= spec_encode_parameter(param, fields).len(),
        spec_encode_parameter(param, fields).subrange(
            spec_child_offset(param, fields, k),
            spec_child_offset(param, fields, k) + spec_encode_parameter(
                param.payload@[k],
                fields,
            ).len(),
        ) == spec_encode_parameter(param.payload@[k], fields),
{
    let kids = param.payload@;
    let child = spec_encode_parameter(kids[k], fields);
    let before = spec_encode_children(kids, fields, k as nat);
    let with_child = spec_encode_children(kids, fields, (k + 1) as nat);
    lemma_children_prefix(kids, fields, (k + 1) as nat, kids.len());
    let from = before.len() as int;
    assert(with_child.subrange(from, from + child.len()) =~= child);
}

/// The parameter that a path of child indices leads to from `param`, if the path
/// stays inside the tree. The empty path leads to `param` itself.
pub open spec fn spec_descendant(param: Parameter, path: Seq<int>) -> Option<Parameter>
    decreases path.len(),
{
    if path.len() == 0 {
        Some(param)
    } else if 0 <= path[0] < param.payload@.len() {
        spec_descendant(param.payload@[path[0]], path.drop_first())
    } else {
        None
    }
}

/// Where the encoding of the parameter that `path` leads to starts in the
/// encoding of `param`.
pub open spec fn spec_descendant_offset<W: FixedFields>(
    param: Parameter,
    fields: &W,
    path: Seq<int>,
) -> int
    decreases path.len(),
{
    if path.len() == 0 {
        0
    } else {
        spec_child_offset(param, fields, path[0]) + spec_descendant_offset(
            param.payload@[path[0]],
            fields,
            path.drop_first(),
        )
    }
}

/// The length field of a TLV parameter stands at offset 2 and counts every octet
/// of the parameter, where that number fits the field.
pub proof fn lemma_tlv_length_field(param_type: LlrpParameterType, body: Seq<u8>)
    requires
        4 + body.len() <= 0xFFFF,
    ensures
        spec_tlv(param_type, body).len() == 4 + body.len(),
        u16_at(spec_tlv(param_type, body), 2) == 4 + body.len(),
{
    lemma_u16_round_trip(spec_length_field(4 + body.len()));
}

/// A part of a part of a sequence is a part of the sequence.
proof fn lemma_part_of_part(whole: Seq<u8>, from: int, part: Seq<u8>, inner: int, piece: Seq<u8>)
    requires
        0 <= from,
        from + part.len() <= whole.len(),
        whole.subrange(from, from + part.len()) == part,
        0 <= inner,
        inner + piece.len() <= part.len(),
        part.subrange(inner, inner + piece.len()) == piece,
    ensures
        whole.subrange(from + inner, from + inner + piece.len()) == piece,
        forall|k: int| 0 <= k < part.len() ==> whole[from + k] == #[trigger] part[k],
{
}

/// In the encoding of a parameter tree that fits 16 bits, every parameter of the
/// tree stands whole at its offset, and the length field at offset 2 of each
/// counts every octet that its subtree was written in.
pub proof fn lemma_every_length_field_counts_its_subtree<W: FixedFields>(
    param: Parameter,
    fields: &W,
    path: Seq<int>,
)
    requires
        spec_encode_parameter(param, fields).len() <= 0xFFFF,
        spec_descendant(param, path) is Some,
    ensures
        0 <= spec_descendant_offset(param, fields, path),
        spec_descendant_offset(param, fields, path) + spec_encode_parameter(
            spec_descendant(param, path)->Some_0,
            fields,
        ).len() <= spec_encode_parameter(param, fields).len(),
        spec_encode_parameter(param, fields).subrange(
            spec_descendant_offset(param, fields, path),
            spec_descendant_offset(param, fields, path) + spec_encode_parameter(
                spec_descendant(param, path)->Some_0,
                fields,
            ).len(),
        ) == spec_encode_parameter(spec_descendant(param, path)->Some_0, fields),
        u16_at(
            spec_encode_parameter(param, fields),
            spec_descendant_offset(param, fields, path) + 2,
        ) == spec_encode_parameter(spec_descendant(param, path)->Some_0, fields).len(),
    decreases path.len(),
{
    let whole = spec_encode_parameter(param, fields);
    if path.len() == 0 {
        lemma_tlv_length_field(param.param_type, spec_parameter_body(param, fields));
    } else {
        let k = path[0];
        let child = param.payload@[k];
        let below = path.drop_first();
        let child_octets = spec_encode_parameter(child, fields);
        let from = spec_child_offset(param, fields, k);
        let inner = spec_descendant_offset(child, fields, below);
        let piece = spec_encode_parameter(spec_descendant(child, below)->Some_0, fields);
        lemma_child_is_embedded(param, fields, k);
        lemma_every_length_field_counts_its_subtree(child, fields, below);
        lemma_part_of_part(whole, from, child_octets, inner, piece);
    }
}

} // verus!
