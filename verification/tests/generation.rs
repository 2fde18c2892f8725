use vecline::gen::{VecLineData, VecLineGen};
use vecline::parser::CodeParser;

fn gen_of(code: &str) -> VecLineGen {
    let mut parser = CodeParser::new(code.to_owned(), VecLineGen::default());
    let r = parser.parse();
    assert!(r.is_ok(), "parse failed: {:?}", r.err().map(|e| e.msg));
    parser.gen
}

fn full(code: &str) -> Vec<Vec<VecLineData>> {
    let g = gen_of(code);
    let n = g.len() as i64;
    g.generate(0..n)
}

fn pt(x: i64, y: i64) -> VecLineData {
    VecLineData::new(x, y)
}

#[test]
fn move_line_end_yields_one_stroke_plus_origin() {
    let polys = full("MOVE 0,0,LINE 10,10,END");
    assert_eq!(polys.len(), 2);
    assert_eq!(polys[0], vec![pt(0, 0)]);
    assert_eq!(polys[1], vec![pt(0, 0), pt(0, 0), pt(10_000_000, 10_000_000)]);
}

#[test]
fn generate_is_a_pure_function_of_its_inputs() {
    let g = gen_of("MOVE 1,2,LINE 3,4,QUAD 0,0,10,0,");
    let a = g.generate(0..3);
    let b = g.generate(0..3);
    assert_eq!(a, b);
}

#[test]
fn range_end_is_clamped_by_the_program_length() {
    let g = gen_of("MOVE 0,0,LINE 10,10,END");
    let exact = g.generate(0..3);
    let wide = g.generate(0..100);
    assert_eq!(exact, wide);
}

#[test]
fn commands_before_the_range_still_move_the_state() {
    let polys = gen_of("MOVE 1,1,LINE 2,2,").generate(1..2);
    assert_eq!(polys.len(), 2);
    assert_eq!(polys[0], vec![pt(0, 0)]);
    assert_eq!(polys[1], vec![pt(1_000_000, 1_000_000), pt(2_000_000, 2_000_000)]);
}

#[test]
fn quad_samples_one_hundred_points_short_of_the_end() {
    let polys = full("QUAD 0,0,10,0");
    assert_eq!(polys.len(), 2);
    let curve = &polys[1];
    assert_eq!(curve.len(), 100);
    for k in 0..100i64 {
        assert_eq!(curve[k as usize], pt(k * k * 1000, 0));
    }
    for k in 1..100usize {
        assert!(curve[k].x > curve[k - 1].x);
    }
    assert_eq!(curve[99], pt(9_801_000, 0));
    assert_ne!(curve[99].x, 10_000_000);
}

#[test]
fn cubi_samples_the_cubic_formula() {
    let polys = full("CUBI 0,0,0,0,10,0");
    let curve = &polys[1];
    assert_eq!(curve.len(), 100);
    assert_eq!(curve[0], pt(0, 0));
    assert_eq!(curve[50], pt(1_250_000, 0));
    assert_eq!(curve[99], pt(9_702_990, 0));
}

#[test]
fn scale_applies_until_popped() {
    let polys = full("PUSH_SCALE 2,2,MOVE 1,1,POP_TRANS,MOVE 1,1,");
    assert_eq!(polys.len(), 3);
    assert_eq!(polys[1], vec![pt(2_000_000, 2_000_000)]);
    assert_eq!(polys[2], vec![pt(1_000_000, 1_000_000)]);
}

#[test]
fn popping_an_empty_stack_is_a_no_op() {
    let polys = full("POP_TRANS,MOVE 1,1,POP_WORLD_TRANS,");
    assert_eq!(polys.len(), 2);
    assert_eq!(polys[1], vec![pt(1_000_000, 1_000_000)]);
}

#[test]
fn translate_uses_the_homogeneous_column() {
    let polys = full("PUSH_TRANSLATE 5,7,MOVE 1,1,");
    assert_eq!(polys[1], vec![pt(6_000_000, 8_000_000)]);
}

#[test]
fn skew_mixes_the_coordinates() {
    let polys = full("PUSH_SKEW 1,0,MOVE 1,1,");
    assert_eq!(polys[1], vec![pt(2_000_000, 1_000_000)]);
}

#[test]
fn rotate_by_zero_is_the_identity() {
    let polys = full("PUSH_ROTATE 0,MOVE 1,0,");
    assert_eq!(polys[1], vec![pt(1_000_000, 0)]);
}

#[test]
fn rotate_by_a_quarter_turn_swaps_the_axes() {
    let polys = full("PUSH_ROTATE 1.570796,MOVE 1,0,");
    assert_eq!(polys[1], vec![pt(0, 1_000_000)]);
}

#[test]
fn world_transform_is_applied_to_every_point_at_the_end() {
    let polys = full("PUSH_WORLD_TRANSLATE 5,5,MOVE 1,1,");
    assert_eq!(polys.len(), 2);
    assert_eq!(polys[0], vec![pt(5_000_000, 5_000_000)]);
    assert_eq!(polys[1], vec![pt(6_000_000, 6_000_000)]);
}

#[test]
fn decimal_fractions_are_millionths() {
    let polys = full("MOVE 1.5,-0.25,");
    assert_eq!(polys[1], vec![pt(1_500_000, -250_000)]);
}

#[test]
fn fraction_digits_past_six_are_truncated() {
    let polys = full("MOVE 0.1234567,0,");
    assert_eq!(polys[1], vec![pt(123_456, 0)]);
}

#[test]
fn huge_literals_saturate() {
    let polys = full("MOVE 99999999999999999999,0,");
    assert_eq!(polys[1], vec![pt(i64::MAX, 0)]);
}

#[test]
fn nested_transforms_compose_left_to_right() {
    let polys = full("PUSH_SCALE 2,2,PUSH_TRANSLATE 1,0,MOVE 1,0,");
    assert_eq!(polys[1], vec![pt(4_000_000, 0)]);
}

#[test]
fn explicit_matrix_rows_are_taken_as_given() {
    let polys = full("PUSH_TRANS 0,1,0,1,0,0,0,0,1,MOVE 1,2,");
    assert_eq!(polys[1], vec![pt(2_000_000, 1_000_000)]);
}

#[test]
fn perspective_row_divides_by_w() {
    let polys = full("PUSH_TRANS 1,0,0,0,1,0,0,0,2,MOVE 2,2,");
    assert_eq!(polys[1], vec![pt(1_000_000, 1_000_000)]);
}

#[test]
fn world_variants_use_the_world_stack() {
    let polys = full("PUSH_WORLD_SCALE 2,2,MOVE 1,1,");
    assert_eq!(polys[0], vec![pt(0, 0)]);
    assert_eq!(polys[1], vec![pt(2_000_000, 2_000_000)]);
    let rotated = full("PUSH_WORLD_ROTATE 1.570796,MOVE 1,0,");
    assert_eq!(rotated[1], vec![pt(0, 1_000_000)]);
    let skewed = full("PUSH_WORLD_SKEW 1,0,MOVE 1,1,");
    assert_eq!(skewed[1], vec![pt(2_000_000, 1_000_000)]);
}
