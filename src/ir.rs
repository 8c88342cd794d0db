use vstd::prelude::*;

use crate::ast::{BinaryOp, Comparison, CoordinateAccess, UnaryOp};

verus! {

/// Value categories of the IR.
#[derive(Debug, Clone, Copy, PartialEq, Eq, Structural, PartialOrd, Ord, Hash)]
pub enum IRType {
    Number,
    Vec2,
    Vec3,
    Never,
    Bool,
    NumberList,
    Vec2List,
    Vec3List,
}

impl IRType {
    /// Types that may be the input or output of a compiled chunk.
    pub open spec fn value_type(self) -> bool {
        matches!(
            self,
            IRType::Number | IRType::Vec2 | IRType::Vec3 | IRType::NumberList | IRType::Vec2List
                | IRType::Vec3List
        )
    }

    /// Element type of a list-shaped or vector-shaped type.
    pub open spec fn element_type(self) -> Option<IRType> {
        match self {
            IRType::NumberList => Some(IRType::Number),
            IRType::Vec2 => Some(IRType::Vec2),
            IRType::Vec3 => Some(IRType::Vec3),
            _ => None,
        }
    }

    /// The operation allocating a list of this element type, for the scalar-like types.
    pub open spec fn list_op(self, len: Id) -> Option<IROp> {
        match self {
            IRType::Number => Some(IROp::NumberList(len)),
            IRType::Vec2 => Some(IROp::Vec2List(len)),
            IRType::Vec3 => Some(IROp::Vec3List(len)),
            _ => None,
        }
    }

    pub fn is_value_type(&self) -> (r: bool)
        ensures
            r == self.value_type(),
    {
        match self {
            IRType::Number | IRType::Vec2 | IRType::Vec3 | IRType::NumberList | IRType::Vec2List
            | IRType::Vec3List => true,
            IRType::Never | IRType::Bool => false,
        }
    }

    pub fn downcast_list(&self) -> (r: Option<Self>)
        ensures
            r == self.element_type(),
    {
        match self {
            IRType::NumberList => Some(IRType::Number),
            IRType::Vec2 => Some(IRType::Vec2),
            IRType::Vec3 => Some(IRType::Vec3),
            _ => None,
        }
    }

    /// Builds (without placing it) the operation that allocates a list of `self` of length `len`.
    pub fn list_of(&self, len: Id) -> (r: Result<IROp, IRError>)
        ensures
            r == (match self.list_op(len) {
                Some(op) => Ok(op),
                None => Err(IRError::UnsupportedListElement(*self)),
            }),
    {
        match self {
            IRType::Number => Ok(IROp::NumberList(len)),
            IRType::Vec2 => Ok(IROp::Vec2List(len)),
            IRType::Vec3 => Ok(IROp::Vec3List(len)),
            t => Err(IRError::UnsupportedListElement(*t)),
        }
    }
}

/// Errors of IR construction and lookup.
#[derive(Debug, Clone, Copy, PartialEq, Eq, Structural)]
pub enum IRError {
    /// A list of this type cannot be built.
    UnsupportedListElement(IRType),
    /// No operation was placed at this position.
    NotFound(u32),
    /// The sequence holds no operation.
    EmptySequence,
}

/// Position in an instruction sequence, with the value type of the operation found there.
/// Identity and order go by the position alone; the type tag rides along.
#[derive(Debug, Clone, Copy)]
pub struct Id {
    idx: u32,
    pub t: IRType,
}

/// How two positions compare.
pub open spec fn index_order(a: u32, b: u32) -> core::cmp::Ordering {
    if a < b {
        core::cmp::Ordering::Less
    } else if a == b {
        core::cmp::Ordering::Equal
    } else {
        core::cmp::Ordering::Greater
    }
}

impl Id {
    pub closed spec fn index(self) -> u32 {
        self.idx
    }

    pub closed spec fn tag(self) -> IRType {
        self.t
    }

    pub fn new(idx: u32, t: IRType) -> (r: Self)
        ensures
            r.index() == idx,
            r.tag() == t,
    {
        Id { idx, t }
    }

    /// The identifier at position `idx` carrying this identifier's type tag.
    pub fn with_idx(&self, idx: u32) -> (r: Self)
        ensures
            r.index() == idx,
            r.tag() == self.tag(),
    {
        Id { t: self.t, idx }
    }

    pub fn idx(&self) -> (r: u32)
        ensures
            r == self.index(),
    {
        self.idx
    }
}

impl PartialEq for Id {
    fn eq(&self, other: &Self) -> (r: bool) {
        self.idx == other.idx
    }
}

impl vstd::std_specs::cmp::PartialEqSpecImpl for Id {
    open spec fn obeys_eq_spec() -> bool {
        true
    }

    open spec fn eq_spec(&self, other: &Id) -> bool {
        self.index() == other.index()
    }
}

impl Eq for Id {}

impl PartialOrd for Id {
    fn partial_cmp(&self, other: &Self) -> (r: Option<core::cmp::Ordering>) {
        if self.idx < other.idx {
            Some(core::cmp::Ordering::Less)
        } else if self.idx == other.idx {
            Some(core::cmp::Ordering::Equal)
        } else {
            Some(core::cmp::Ordering::Greater)
        }
    }
}

impl vstd::std_specs::cmp::PartialOrdSpecImpl for Id {
    open spec fn obeys_partial_cmp_spec() -> bool {
        true
    }

    open spec fn partial_cmp_spec(&self, other: &Id) -> Option<core::cmp::Ordering> {
        Some(index_order(self.index(), other.index()))
    }
}

/// An argument of the enclosing broadcast scope, addressed by a local slot.
#[derive(Debug, Clone, Copy, PartialEq, Eq, Structural, PartialOrd, Ord, Hash)]
pub struct BroadcastArg {
    pub t: IRType,
    pub id: u8,
}

/// The positional input of the compiled chunk whose index is the wrapped identifier's position.
#[derive(Debug, Clone, Copy, PartialEq, Eq, PartialOrd)]
pub struct ArgId(Id);

impl ArgId {
    pub closed spec fn id(self) -> Id {
        self.0
    }

    pub fn new(id: Id) -> (r: Self)
        ensures
            r.id() == id,
    {
        ArgId(id)
    }
}

/// Operations of the IR.
#[derive(Debug, Clone, Copy, PartialEq)]
#[allow(inconsistent_fields)]
pub enum IROp {
    Binary(Id, Id, BinaryOp),
    Unary(Id, UnaryOp),
    /// 64-bit floating point constant, as its bit pattern
    Const(u64),
    /// 64-bit integer constant
    IConst(i64),
    /// load args\[a] to this reg
    LoadArg(ArgId),
    /// one component of a point
    CoordinateOf(Id, CoordinateAccess),
    Vec2(Id, Id),
    Vec3(Id, Id, Id),
    /// empty list of numbers of length a
    NumberList(Id),
    /// empty list of 2d points of length a
    Vec2List(Id),
    /// empty list of 3d points of length a
    Vec3List(Id),
    ListLength(Id),
    /// Opens a broadcast loop over indices 0..=end_index whose output goes to write_to
    BeginBroadcast { end_index: Id, write_to: Id },
    /// Only directly after BeginBroadcast or SetBroadcastArg: binds slot b to a
    SetBroadcastArg(Id, BroadcastArg),
    LoadBroadcastArg(BroadcastArg),
    EndBroadcast {
        /// the matching BeginBroadcast
        begin: Id,
        /// the value pushed to the output list
        ret: Id,
    },
    Comparison { lhs: Id, comp: Comparison, rhs: Id },
    /// A piecewise chain is one BeginPiecewise, any number of InnerPiecewise and one EndPiecewise
    BeginPiecewise { comp: Id, res: Id },
    InnerPiecewise { comp: Id, res: Id },
    EndPiecewise { default: Id },
    Ret(Id),
}

impl IROp {
    /// The type of the value an operation yields.
    pub open spec fn result_type(self) -> IRType {
        match self {
            IROp::Binary(_, _, _) => IRType::Number,
            IROp::Unary(_, _) => IRType::Number,
            IROp::Const(_) => IRType::Number,
            IROp::IConst(_) => IRType::Number,
            IROp::LoadArg(a) => a.id().tag(),
            IROp::CoordinateOf(_, _) => IRType::Number,
            IROp::Vec2(_, _) => IRType::Vec2,
            IROp::Vec3(_, _, _) => IRType::Vec3,
            IROp::NumberList(_) => IRType::NumberList,
            IROp::Vec2List(_) => IRType::Vec2List,
            IROp::Vec3List(_) => IRType::Vec3List,
            IROp::ListLength(_) => IRType::Number,
            IROp::BeginBroadcast { write_to, .. } => write_to.tag(),
            IROp::SetBroadcastArg(_, _) => IRType::Never,
            IROp::LoadBroadcastArg(b) => b.t,
            IROp::EndBroadcast { .. } => IRType::Never,
            IROp::Comparison { .. } => IRType::Bool,
            IROp::BeginPiecewise { res, .. } => res.tag(),
            IROp::InnerPiecewise { .. } => IRType::Never,
            IROp::EndPiecewise { .. } => IRType::Never,
            IROp::Ret(i) => i.tag(),
        }
    }

    pub fn type_of(&self) -> (r: IRType)
        ensures
            r == self.result_type(),
    {
        // no wildcard arm: a new operation does not build until it has a type
        match self {
            IROp::Binary(_, _, _)
            | IROp::Unary(_, _)
            | IROp::Const(_)
            | IROp::IConst(_)
            | IROp::CoordinateOf(_, _)
            | IROp::ListLength(_) => IRType::Number,
            IROp::LoadArg(ArgId(Id { t, .. }))
            | IROp::LoadBroadcastArg(BroadcastArg { t, .. })
            | IROp::BeginPiecewise { res: Id { t, .. }, .. }
            | IROp::BeginBroadcast { write_to: Id { t, .. }, .. } => *t,
            IROp::Vec2(_, _) => IRType::Vec2,
            IROp::Vec3(_, _, _) => IRType::Vec3,
            IROp::NumberList(_) => IRType::NumberList,
            IROp::Vec2List(_) => IRType::Vec2List,
            IROp::Vec3List(_) => IRType::Vec3List,
            IROp::SetBroadcastArg(_, _) => IRType::Never,
            IROp::EndBroadcast { .. } => IRType::Never,
            IROp::Comparison { .. } => IRType::Bool,
            IROp::InnerPiecewise { .. } | IROp::EndPiecewise { .. } => IRType::Never,
            IROp::Ret(i) => i.t,
        }
    }
}

/// The operation at `id`'s position in `content`, or the lookup error.
pub open spec fn lookup(content: Seq<IROp>, id: Id) -> Result<IROp, IRError> {
    if id.index() < content.len() {
        Ok(content[id.index() as int])
    } else {
        Err(IRError::NotFound(id.index()))
    }
}

/// The last operation of `content`, or the error of an empty sequence.
pub open spec fn last_op(content: Seq<IROp>) -> Result<IROp, IRError> {
    if content.len() > 0 {
        Ok(content.last())
    } else {
        Err(IRError::EmptySequence)
    }
}

/// Ordered, append-only log of operations; the operation placed n-th has position n.
#[derive(Debug, Clone)]
pub struct IRInstructionSeq {
    backing: Vec<IROp>,
}

impl View for IRInstructionSeq {
    type V = Seq<IROp>;

    closed spec fn view(&self) -> Seq<IROp> {
        self.backing@
    }
}

impl IRInstructionSeq {
    pub fn new() -> (r: Self)
        ensures
            r@ == Seq::<IROp>::empty(),
    {
        IRInstructionSeq { backing: Vec::new() }
    }

    pub fn len(&self) -> (r: usize)
        ensures
            r == self@.len(),
    {
        self.backing.len()
    }

    pub fn is_empty(&self) -> (r: bool)
        ensures
            r == (self@.len() == 0),
    {
        self.backing.len() == 0
    }

    /// Appends `op` and forgets its identifier.
    pub fn push(&mut self, op: IROp)
        requires
            old(self)@.len() <= u32::MAX,
        ensures
            final(self)@ == old(self)@.push(op),
    {
        let _ = self.place(op);
    }

    /// Appends `op`; its identifier is the next position, typed by `op`'s result type.
    pub fn place(&mut self, op: IROp) -> (r: Id)
        requires
            old(self)@.len() <= u32::MAX,
        ensures
            final(self)@ == old(self)@.push(op),
            r.index() == old(self)@.len(),
            r.tag() == op.result_type(),
    {
        let nid = self.backing.len() as u32;
        let id = Id::new(nid, op.type_of());
        self.backing.push(op);
        id
    }

    /// Places the x and y components of `point`, in that order.
    pub fn coordinates_of2d(&mut self, point: Id) -> (r: (Id, Id))
        requires
            old(self)@.len() + 2 <= u32::MAX + 1,
        ensures
            final(self)@ == old(self)@ + seq![
                IROp::CoordinateOf(point, CoordinateAccess::DotAccessX),
                IROp::CoordinateOf(point, CoordinateAccess::DotAccessY),
            ],
            r.0.index() == old(self)@.len(),
            r.1.index() == old(self)@.len() + 1,
            r.0.tag() == IRType::Number,
            r.1.tag() == IRType::Number,
    {
        let x = self.place(IROp::CoordinateOf(point, CoordinateAccess::DotAccessX));
        let y = self.place(IROp::CoordinateOf(point, CoordinateAccess::DotAccessY));
        proof {
            assert(final(self)@ =~= old(self)@ + seq![
                IROp::CoordinateOf(point, CoordinateAccess::DotAccessX),
                IROp::CoordinateOf(point, CoordinateAccess::DotAccessY),
            ]);
        }
        (x, y)
    }

    /// Places the x, y and z components of `point`, in that order.
    pub fn coordinates_of3d(&mut self, point: Id) -> (r: (Id, Id, Id))
        requires
            old(self)@.len() + 3 <= u32::MAX + 1,
        ensures
            final(self)@ == old(self)@ + seq![
                IROp::CoordinateOf(point, CoordinateAccess::DotAccessX),
                IROp::CoordinateOf(point, CoordinateAccess::DotAccessY),
                IROp::CoordinateOf(point, CoordinateAccess::DotAccessZ),
            ],
            r.0.index() == old(self)@.len(),
            r.1.index() == old(self)@.len() + 1,
            r.2.index() == old(self)@.len() + 2,
            r.0.tag() == IRType::Number,
            r.1.tag() == IRType::Number,
            r.2.tag() == IRType::Number,
    {
        let x = self.place(IROp::CoordinateOf(point, CoordinateAccess::DotAccessX));
        let y = self.place(IROp::CoordinateOf(point, CoordinateAccess::DotAccessY));
        let z = self.place(IROp::CoordinateOf(point, CoordinateAccess::DotAccessZ));
        proof {
            assert(final(self)@ =~= old(self)@ + seq![
                IROp::CoordinateOf(point, CoordinateAccess::DotAccessX),
                IROp::CoordinateOf(point, CoordinateAccess::DotAccessY),
                IROp::CoordinateOf(point, CoordinateAccess::DotAccessZ),
            ]);
        }
        (x, y, z)
    }

    /// Places all of `ops` in order and returns the identifier of the first.
    pub fn place_block(&mut self, ops: &[IROp]) -> (r: Option<Id>)
        requires
            old(self)@.len() + ops@.len() <= u32::MAX + 1,
        ensures
            final(self)@ == old(self)@ + ops@,
            match r {
                None => ops@.len() == 0,
                Some(id) => {
                    &&& ops@.len() > 0
                    &&& id.index() == old(self)@.len()
                    &&& id.tag() == ops@[0].result_type()
                },
            },
    {
        if ops.len() == 0 {
            proof {
                assert(old(self)@ + ops@ =~= old(self)@);
            }
            return None;
        }
        let first = self.place(ops[0]);
        let mut i: usize = 1;
        while i < ops.len()
            invariant
                1 <= i <= ops@.len(),
                self@ == old(self)@ + ops@.take(i as int),
                old(self)@.len() + ops@.len() <= u32::MAX + 1,
            decreases ops@.len() - i,
        {
            self.push(ops[i]);
            proof {
                assert(ops@.take(i as int).push(ops@[i as int]) =~= ops@.take(i + 1));
            }
            i += 1;
        }
        proof {
            assert(ops@.take(ops@.len() as int) =~= ops@);
        }
        Some(first)
    }

    /// The operation placed at `id`'s position.
    pub fn get(&self, id: &Id) -> (r: Result<&IROp, IRError>)
        ensures
            match r {
                Ok(op) => lookup(self@, *id) == Ok::<IROp, IRError>(*op),
                Err(e) => lookup(self@, *id) == Err::<IROp, IRError>(e),
            },
    {
        let i = id.idx as usize;
        if i < self.backing.len() {
            Ok(&self.backing[i])
        } else {
            Err(IRError::NotFound(id.idx))
        }
    }

    /// The operation placed last.
    pub fn latest(&self) -> (r: Result<&IROp, IRError>)
        ensures
            match r {
                Ok(op) => last_op(self@) == Ok::<IROp, IRError>(*op),
                Err(e) => last_op(self@) == Err::<IROp, IRError>(e),
            },
    {
        let n = self.backing.len();
        if n == 0 {
            Err(IRError::EmptySequence)
        } else {
            Ok(&self.backing[n - 1])
        }
    }
}

/// Builds one broadcast region: `BeginBroadcast`, its slot bindings, a body, and the
/// matching `EndBroadcast`. It holds the sequence while the region is open, so nothing
/// else can append to it meanwhile.
pub struct BroadcastBuilder {
    seq: IRInstructionSeq,
    args: Vec<BroadcastArg>,
    begin: Id,
}

/// The operation that binds a value to a broadcast slot.
pub open spec fn binding_op(b: (Id, BroadcastArg)) -> IROp {
    IROp::SetBroadcastArg(b.0, b.1)
}

pub open spec fn binding_slot(b: (Id, BroadcastArg)) -> BroadcastArg {
    b.1
}

impl BroadcastBuilder {
    /// What the sequence holds so far.
    pub closed spec fn content(self) -> Seq<IROp> {
        self.seq@
    }

    /// The identifier of the region's `BeginBroadcast`.
    pub closed spec fn begin_id(self) -> Id {
        self.begin
    }

    /// The slots bound when the region was opened, in order.
    pub closed spec fn slots(self) -> Seq<BroadcastArg> {
        self.args@
    }

    /// Places `BeginBroadcast { end_index, write_to }`, then one `SetBroadcastArg` per binding.
    pub fn open(seq: IRInstructionSeq, end_index: Id, write_to: Id, bindings: &[(Id, BroadcastArg)]) -> (r: Self)
        requires
            seq@.len() + 1 + bindings@.len() <= u32::MAX + 1,
        ensures
            r.content() == seq@.push(IROp::BeginBroadcast { end_index, write_to }) + bindings@.map_values(|b: (Id, BroadcastArg)| binding_op(b)),
            r.begin_id().index() == seq@.len(),
            r.begin_id().tag() == write_to.tag(),
            r.slots() == bindings@.map_values(|b: (Id, BroadcastArg)| binding_slot(b)),
    {
        let ghost start = seq@;
        let mut seq = seq;
        let begin = seq.place(IROp::BeginBroadcast { end_index, write_to });
        let mut args: Vec<BroadcastArg> = Vec::new();
        let mut i: usize = 0;
        while i < bindings.len()
            invariant
                0 <= i <= bindings@.len(),
                start.len() + 1 + bindings@.len() <= u32::MAX + 1,
                seq@ == start.push(IROp::BeginBroadcast { end_index, write_to }) + bindings@.take(i as int).map_values(|b: (Id, BroadcastArg)| binding_op(b)),
                args@ == bindings@.take(i as int).map_values(|b: (Id, BroadcastArg)| binding_slot(b)),
            decreases bindings@.len() - i,
        {
            let (value, slot) = bindings[i];
            seq.push(IROp::SetBroadcastArg(value, slot));
            args.push(slot);
            proof {
                assert(bindings@.take(i + 1) =~= bindings@.take(i as int).push(bindings@[i as int]));
                assert(bindings@.take(i + 1).map_values(|b: (Id, BroadcastArg)| binding_op(b)) =~= bindings@.take(i as int).map_values(|b: (Id, BroadcastArg)| binding_op(b)).push(binding_op(bindings@[i as int])));
                assert(bindings@.take(i + 1).map_values(|b: (Id, BroadcastArg)| binding_slot(b)) =~= bindings@.take(i as int).map_values(|b: (Id, BroadcastArg)| binding_slot(b)).push(binding_slot(bindings@[i as int])));
            }
            i += 1;
        }
        proof {
            assert(bindings@.take(bindings@.len() as int) =~= bindings@);
        }
        BroadcastBuilder { seq, args, begin }
    }

    /// Places one operation of the region's body.
    pub fn place(&mut self, op: IROp) -> (r: Id)
        requires
            old(self).content().len() <= u32::MAX,
        ensures
            final(self).content() == old(self).content().push(op),
            final(self).begin_id() == old(self).begin_id(),
            final(self).slots() == old(self).slots(),
            r.index() == old(self).content().len(),
            r.tag() == op.result_type(),
    {
        self.seq.place(op)
    }

    pub fn slots_bound(&self) -> (r: &[BroadcastArg])
        ensures
            r@ == self.slots(),
    {
        self.args.as_slice()
    }

    /// Places the `EndBroadcast` matching the region's `BeginBroadcast` and hands the
    /// sequence back, with the identifier of the `BeginBroadcast`.
    pub fn finish(self, ret: Id) -> (r: (IRInstructionSeq, Id))
        requires
            self.content().len() <= u32::MAX,
        ensures
            r.0@ == self.content().push(IROp::EndBroadcast { begin: self.begin_id(), ret }),
            r.1 == self.begin_id(),
    {
        let BroadcastBuilder { seq, args: _, begin } = self;
        let mut seq = seq;
        seq.push(IROp::EndBroadcast { begin, ret });
        (seq, begin)
    }
}

impl Default for IRInstructionSeq {
    fn default() -> (r: Self)
        ensures
            r@ == Seq::<IROp>::empty(),
    {
        IRInstructionSeq::new()
    }
}

} // verus!
