//! Tests of the seed parser.

use safe_node::seed::{ParseError, Seed};

#[test]
fn parse_seed() {
    assert_eq!("[0, 0, 0, 0]".parse(), Ok(Seed([0, 0, 0, 0])));
    assert_eq!("[0, 1, 2, 3]".parse(), Ok(Seed([0, 1, 2, 3])));
    assert_eq!(
        "[2173726344, 4077344496, 2175816672, 3385125285]".parse(),
        Ok(Seed([
            2_173_726_344,
            4_077_344_496,
            2_175_816_672,
            3_385_125_285
        ]))
    );
    assert_eq!("".parse(), Err::<Seed, _>(ParseError));
}

#[test]
fn parse_seed_whitespace_and_trailing() {
    assert_eq!("  [ 7,8 ,9,  10 ]".parse(), Ok(Seed([7, 8, 9, 10])));
    // Anything after the closing bracket is ignored, as the grammar says.
    assert_eq!("[1, 2, 3, 4] trailing".parse(), Ok(Seed([1, 2, 3, 4])));
}

#[test]
fn parse_seed_rejects_malformed() {
    assert_eq!("[1, 2, 3]".parse(), Err::<Seed, _>(ParseError));
    assert_eq!("[1, 2, 3, ]".parse(), Err::<Seed, _>(ParseError));
    assert_eq!("1, 2, 3, 4".parse(), Err::<Seed, _>(ParseError));
    assert_eq!("[1 2 3 4]".parse(), Err::<Seed, _>(ParseError));
    assert_eq!("[1, 2, 3, 4".parse(), Err::<Seed, _>(ParseError));
}

#[test]
fn parse_seed_wraps_like_u32() {
    // 4294967296 == 2^32 wraps to 0 under the parser's wrapping accumulation.
    assert_eq!("[4294967296, 0, 0, 0]".parse(), Ok(Seed([0, 0, 0, 0])));
}
