use desmoxide::{
    ArgId, BinaryOp, BroadcastArg, BroadcastBuilder, Comparison, CoordinateAccess, IRError, IRInstructionSeq, IROp,
    IRType, Id, UnaryOp,
};

fn num(i: u32) -> Id {
    Id::new(i, IRType::Number)
}

#[test]
fn value_types() {
    for t in [
        IRType::Number,
        IRType::Vec2,
        IRType::Vec3,
        IRType::NumberList,
        IRType::Vec2List,
        IRType::Vec3List,
    ] {
        assert!(t.is_value_type());
    }
    assert!(!IRType::Bool.is_value_type());
    assert!(!IRType::Never.is_value_type());
}

#[test]
fn downcast_list_mapping() {
    assert_eq!(IRType::NumberList.downcast_list(), Some(IRType::Number));
    assert_eq!(IRType::Vec2.downcast_list(), Some(IRType::Vec2));
    assert_eq!(IRType::Vec3.downcast_list(), Some(IRType::Vec3));
    assert_eq!(IRType::Vec2List.downcast_list(), None);
    assert_eq!(IRType::Vec3List.downcast_list(), None);
    assert_eq!(IRType::Number.downcast_list(), None);
    assert_eq!(IRType::Bool.downcast_list(), None);
    assert_eq!(IRType::Never.downcast_list(), None);
}

#[test]
fn list_of_scalar_types() {
    let len = num(7);
    let op = IRType::Number.list_of(len).unwrap();
    assert_eq!(op, IROp::NumberList(len));
    assert_eq!(op.type_of(), IRType::NumberList);
    let op = IRType::Vec2.list_of(len).unwrap();
    assert_eq!(op, IROp::Vec2List(len));
    assert_eq!(op.type_of(), IRType::Vec2List);
    let op = IRType::Vec3.list_of(len).unwrap();
    assert_eq!(op, IROp::Vec3List(len));
    assert_eq!(op.type_of(), IRType::Vec3List);
}

#[test]
fn list_of_other_types_fails() {
    let len = num(0);
    assert_eq!(IRType::Bool.list_of(len), Err(IRError::UnsupportedListElement(IRType::Bool)));
    assert_eq!(IRType::Never.list_of(len), Err(IRError::UnsupportedListElement(IRType::Never)));
    assert_eq!(
        IRType::NumberList.list_of(len),
        Err(IRError::UnsupportedListElement(IRType::NumberList))
    );
}

#[test]
fn id_identity_ignores_tag() {
    let a = Id::new(5, IRType::Number);
    let b = Id::new(5, IRType::Bool);
    assert!(a == b);
    assert_eq!(a.partial_cmp(&b), Some(std::cmp::Ordering::Equal));
    assert!(Id::new(4, IRType::Vec3) < b);
    assert!(Id::new(6, IRType::Never) > a);
    assert!(a != Id::new(6, IRType::Number));
    let c = b.with_idx(9);
    assert_eq!(c.idx(), 9);
    assert_eq!(c.t, IRType::Bool);
}

#[test]
fn type_of_every_operation() {
    let n = num(0);
    let v2 = Id::new(1, IRType::Vec2);
    let l = Id::new(2, IRType::Vec3List);
    let slot = BroadcastArg { t: IRType::Vec2, id: 3 };
    let cases = [
        (IROp::Binary(n, n, BinaryOp::Add), IRType::Number),
        (IROp::Unary(n, UnaryOp::Neg), IRType::Number),
        (IROp::Const(2.5f64.to_bits()), IRType::Number),
        (IROp::IConst(-4), IRType::Number),
        (IROp::LoadArg(ArgId::new(Id::new(0, IRType::NumberList))), IRType::NumberList),
        (IROp::CoordinateOf(v2, CoordinateAccess::DotAccessY), IRType::Number),
        (IROp::Vec2(n, n), IRType::Vec2),
        (IROp::Vec3(n, n, n), IRType::Vec3),
        (IROp::NumberList(n), IRType::NumberList),
        (IROp::Vec2List(n), IRType::Vec2List),
        (IROp::Vec3List(n), IRType::Vec3List),
        (IROp::ListLength(l), IRType::Number),
        (IROp::BeginBroadcast { end_index: n, write_to: l }, IRType::Vec3List),
        (IROp::SetBroadcastArg(v2, slot), IRType::Never),
        (IROp::LoadBroadcastArg(slot), IRType::Vec2),
        (IROp::EndBroadcast { begin: n, ret: v2 }, IRType::Never),
        (IROp::Comparison { lhs: n, comp: Comparison::Less, rhs: n }, IRType::Bool),
        (IROp::BeginPiecewise { comp: n, res: v2 }, IRType::Vec2),
        (IROp::InnerPiecewise { comp: n, res: v2 }, IRType::Never),
        (IROp::EndPiecewise { default: v2 }, IRType::Never),
        (IROp::Ret(l), IRType::Vec3List),
    ];
    for (op, t) in cases {
        assert_eq!(op.type_of(), t);
    }
}

#[test]
fn placed_ids_are_contiguous_from_zero() {
    let mut s = IRInstructionSeq::new();
    let mut prev: Option<Id> = None;
    for i in 0..10u32 {
        let id = s.place(IROp::IConst(i as i64));
        assert_eq!(id.idx(), i);
        if let Some(p) = prev {
            assert!(p < id);
        }
        prev = Some(id);
    }
    assert_eq!(s.len(), 10);
}

#[test]
fn place_types_the_id() {
    let mut s = IRInstructionSeq::new();
    let c = s.place(IROp::Const(1.0f64.to_bits()));
    assert_eq!(c.t, IRType::Number);
    let cmp = s.place(IROp::Comparison { lhs: c, comp: Comparison::Equal, rhs: c });
    assert_eq!(cmp.t, IRType::Bool);
    s.push(IROp::Ret(c));
    assert_eq!(s.len(), 3);
    assert_eq!(s.latest(), Ok(&IROp::Ret(c)));
}

#[test]
fn coordinates_2d_in_order() {
    let mut s = IRInstructionSeq::new();
    let p = s.place(IROp::Vec2(num(0), num(0)));
    let (x, y) = s.coordinates_of2d(p);
    assert_eq!(s.len(), 3);
    assert_eq!((x.idx(), y.idx()), (1, 2));
    assert_eq!(s.get(&x), Ok(&IROp::CoordinateOf(p, CoordinateAccess::DotAccessX)));
    assert_eq!(s.get(&y), Ok(&IROp::CoordinateOf(p, CoordinateAccess::DotAccessY)));
}

#[test]
fn coordinates_3d_in_order() {
    let mut s = IRInstructionSeq::new();
    let p = s.place(IROp::Vec3(num(0), num(0), num(0)));
    let (x, y, z) = s.coordinates_of3d(p);
    assert_eq!(s.len(), 4);
    assert_eq!((x.idx(), y.idx(), z.idx()), (1, 2, 3));
    assert_eq!((x.t, y.t, z.t), (IRType::Number, IRType::Number, IRType::Number));
    assert_eq!(s.get(&x), Ok(&IROp::CoordinateOf(p, CoordinateAccess::DotAccessX)));
    assert_eq!(s.get(&y), Ok(&IROp::CoordinateOf(p, CoordinateAccess::DotAccessY)));
    assert_eq!(s.get(&z), Ok(&IROp::CoordinateOf(p, CoordinateAccess::DotAccessZ)));
}

#[test]
fn place_block_empty() {
    let mut s = IRInstructionSeq::new();
    assert_eq!(s.place_block(&[]), None);
    assert!(s.is_empty());
}

#[test]
fn place_block_single() {
    let mut s = IRInstructionSeq::new();
    s.push(IROp::IConst(1));
    let id = s.place_block(&[IROp::Vec2(num(0), num(0))]).unwrap();
    assert_eq!(id.idx(), 1);
    assert_eq!(id.t, IRType::Vec2);
    assert_eq!(s.len(), 2);
}

#[test]
fn place_block_returns_first() {
    let mut s = IRInstructionSeq::new();
    let ops = [IROp::IConst(1), IROp::Comparison { lhs: num(0), comp: Comparison::Greater, rhs: num(0) }];
    let id = s.place_block(&ops).unwrap();
    assert_eq!(id.idx(), 0);
    assert_eq!(id.t, IRType::Number);
    assert_eq!(s.len(), 2);
    assert_eq!(s.get(&num(0)), Ok(&ops[0]));
    assert_eq!(s.get(&num(1)), Ok(&ops[1]));
    assert_eq!(s.latest(), Ok(&ops[1]));
}

#[test]
fn empty_sequence_lookups_fail() {
    let s = IRInstructionSeq::new();
    for i in [0u32, 1, 17, u32::MAX] {
        assert_eq!(s.get(&Id::new(i, IRType::Number)), Err(IRError::NotFound(i)));
    }
    assert_eq!(s.latest(), Err(IRError::EmptySequence));
    assert!(IRInstructionSeq::default().is_empty());
}

#[test]
fn get_past_end_fails() {
    let mut s = IRInstructionSeq::new();
    s.push(IROp::IConst(3));
    assert_eq!(s.get(&num(0)), Ok(&IROp::IConst(3)));
    assert_eq!(s.get(&Id::new(0, IRType::Bool)), Ok(&IROp::IConst(3)));
    assert_eq!(s.get(&num(1)), Err(IRError::NotFound(1)));
}

#[test]
fn sum_of_two_constants() {
    let mut s = IRInstructionSeq::new();
    let id0 = s.place(IROp::Const(3.0f64.to_bits()));
    let id1 = s.place(IROp::Const(4.0f64.to_bits()));
    let id2 = s.place(IROp::Binary(id0, id1, BinaryOp::Add));
    let id3 = s.place(IROp::Ret(id2));
    assert_eq!(s.len(), 4);
    assert_eq!(s.latest(), Ok(&IROp::Ret(id2)));
    assert_eq!(id2.t, IRType::Number);
    assert_eq!(id3.t, IRType::Number);
    assert_eq!(s.get(&id0), Ok(&IROp::Const(3.0f64.to_bits())));
}

#[test]
fn components_of_a_point() {
    let mut s = IRInstructionSeq::new();
    let a = s.place(IROp::Const(1.0f64.to_bits()));
    let b = s.place(IROp::Const(2.0f64.to_bits()));
    let v = s.place(IROp::Vec2(a, b));
    assert_eq!(v.t, IRType::Vec2);
    let (x, y) = s.coordinates_of2d(v);
    assert_eq!((x.t, y.t), (IRType::Number, IRType::Number));
    assert!(v < x && x < y);
    assert_eq!(s.get(&x), Ok(&IROp::CoordinateOf(v, CoordinateAccess::DotAccessX)));
    assert_eq!(s.get(&y), Ok(&IROp::CoordinateOf(v, CoordinateAccess::DotAccessY)));
}

#[test]
fn broadcast_region_is_well_formed() {
    let mut s = IRInstructionSeq::new();
    let end = s.place(IROp::IConst(9));
    let out = s.place(IROp::NumberList(end));
    let list = s.place(IROp::Vec2List(end));
    let slot = BroadcastArg { t: IRType::Vec2, id: 0 };
    let mut b = BroadcastBuilder::open(s, end, out, &[(list, slot)]);
    assert_eq!(b.slots_bound(), &[slot]);
    let p = b.place(IROp::LoadBroadcastArg(slot));
    assert_eq!(p.t, IRType::Vec2);
    assert_eq!(p.idx(), 5);
    let x = b.place(IROp::CoordinateOf(p, CoordinateAccess::DotAccessX));
    let (s, begin) = b.finish(x);
    assert_eq!(begin.idx(), 3);
    assert_eq!(begin.t, IRType::NumberList);
    assert_eq!(s.len(), 8);
    assert_eq!(s.get(&begin), Ok(&IROp::BeginBroadcast { end_index: end, write_to: out }));
    assert_eq!(s.get(&num(4)), Ok(&IROp::SetBroadcastArg(list, slot)));
    assert_eq!(s.latest(), Ok(&IROp::EndBroadcast { begin, ret: x }));
}

#[test]
fn broadcast_region_without_bindings() {
    let s = IRInstructionSeq::new();
    let b = BroadcastBuilder::open(s, num(0), Id::new(0, IRType::Vec3List), &[]);
    assert!(b.slots_bound().is_empty());
    let (s, begin) = b.finish(num(0));
    assert_eq!(begin.idx(), 0);
    assert_eq!(begin.t, IRType::Vec3List);
    assert_eq!(s.len(), 2);
    assert_eq!(s.latest(), Ok(&IROp::EndBroadcast { begin, ret: num(0) }));
}
