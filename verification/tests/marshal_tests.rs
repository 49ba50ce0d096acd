use move_fuzz::move_args::{MoveArg, ToTransactionArgument, TransactionArgument, U256};

fn lower_all(args: &Vec<MoveArg>) -> Vec<TransactionArgument> {
    args.to_transaction_argument()
}

#[test]
fn primitives_lower_to_one_matching_tag() {
    assert_eq!(7u8.to_transaction_argument(), vec![TransactionArgument::U8(7)]);
    assert_eq!(300u16.to_transaction_argument(), vec![TransactionArgument::U16(300)]);
    assert_eq!(70_000u32.to_transaction_argument(), vec![TransactionArgument::U32(70_000)]);
    assert_eq!(
        5_000_000_000u64.to_transaction_argument(),
        vec![TransactionArgument::U64(5_000_000_000)]
    );
    assert_eq!(
        (1u128 << 100).to_transaction_argument(),
        vec![TransactionArgument::U128(1u128 << 100)]
    );
    let wide = U256 { w0: 1, w1: 2, w2: 3, w3: 4 };
    assert_eq!(wide.to_transaction_argument(), vec![TransactionArgument::U256(wide)]);
    assert_eq!(true.to_transaction_argument(), vec![TransactionArgument::Bool(true)]);
    assert_eq!(false.to_transaction_argument(), vec![TransactionArgument::Bool(false)]);
}

#[test]
fn bytes_pass_through_verbatim() {
    let bytes: Vec<u8> = vec![0, 255, 42];
    assert_eq!(
        bytes.to_transaction_argument(),
        vec![TransactionArgument::U8Vector(vec![0, 255, 42])]
    );
    let empty: Vec<u8> = vec![];
    assert_eq!(
        empty.to_transaction_argument(),
        vec![TransactionArgument::U8Vector(vec![])]
    );
}

#[test]
fn order_preservation() {
    let a = MoveArg::U8(1);
    let b = MoveArg::U64(2);
    let c = MoveArg::Bool(true);
    let all = vec![a, b, c];
    let lowered = lower_all(&all);
    let expected = vec![
        TransactionArgument::U8(1),
        TransactionArgument::U64(2),
        TransactionArgument::Bool(true),
    ];
    assert_eq!(lowered, expected);

    // Concatenation: lower([a, b]) ++ lower([c]) == lower([a, b, c]).
    let left = lower_all(&vec![MoveArg::U8(1), MoveArg::U64(2)]);
    let right = lower_all(&vec![MoveArg::Bool(true)]);
    let mut joined = left;
    joined.extend(right);
    assert_eq!(joined, expected);
}

#[test]
fn nested_lists_flatten_in_order() {
    let nested = MoveArg::List(vec![
        MoveArg::U8(1),
        MoveArg::List(vec![MoveArg::U16(2), MoveArg::Bytes(vec![3, 4])]),
        MoveArg::Bool(false),
    ]);
    assert_eq!(
        nested.to_transaction_argument(),
        vec![
            TransactionArgument::U8(1),
            TransactionArgument::U16(2),
            TransactionArgument::U8Vector(vec![3, 4]),
            TransactionArgument::Bool(false),
        ]
    );
    let empty = MoveArg::List(vec![]);
    assert_eq!(empty.to_transaction_argument(), Vec::<TransactionArgument>::new());
}
