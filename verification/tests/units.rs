use std::cmp::Ordering;

use vecline::any_data::AnyData;
use vecline::data_src::TextDataSrc;
use vecline::fixed::{fadd, fdiv, fmul, fsub, tdiv_i64};
use vecline::gen::{VecLineData, VecOpsType};
use vecline::interfaces::{Command, ParseError};
use vecline::matrix::{apply_point, calc_trans_stack, mat_identity, mat_mul, Mat3};
use vecline::ops::{CommonOpMOVE, CommonOpPopTrans, GenerateCtx};
use vecline::syntax::CommonVecOpSyntax;
use vecline::trig::sin_cos;

#[test]
fn fixed_point_arithmetic_basics() {
    assert_eq!(fadd(1_500_000, 250_000), 1_750_000);
    assert_eq!(fsub(1_000_000, 2_500_000), -1_500_000);
    assert_eq!(fmul(1_500_000, 1_500_000), 2_250_000);
    assert_eq!(fmul(-1_500_000, 1), -1);
    assert_eq!(fdiv(1_000_000, 2_000_000), 500_000);
    assert_eq!(fdiv(1_000_000, 0), 0);
    assert_eq!(fadd(i64::MAX, 1), i64::MAX);
    assert_eq!(fsub(i64::MIN, 1), i64::MIN);
    assert_eq!(tdiv_i64(-7, 2), -3);
}

#[test]
fn sine_and_cosine_of_zero() {
    assert_eq!(sin_cos(0), (0, 1_000_000));
}

#[test]
fn matrix_product_is_associative_on_whole_entries() {
    let s = Mat3 {
        m00: 2_000_000,
        m01: 0,
        m02: 0,
        m10: 0,
        m11: 3_000_000,
        m12: 0,
        m20: 0,
        m21: 0,
        m22: 1_000_000,
    };
    let t = Mat3 { m02: 5_000_000, m12: 7_000_000, ..mat_identity() };
    let k = Mat3 { m01: 1_000_000, ..mat_identity() };
    let left = mat_mul(&mat_mul(&s, &t), &k);
    let right = mat_mul(&s, &mat_mul(&t, &k));
    assert_eq!(left, right);
}

#[test]
fn push_then_pop_restores_the_current_transform() {
    let mut ctx = GenerateCtx::default();
    let before = ctx.current_local_trans;
    let argv = AnyData::convert_vec(vec![2_000_000, 2_000_000]);
    vecline::ops::CommonOpPushScale {}.operate(&mut ctx, &argv);
    assert_ne!(ctx.current_local_trans, before);
    CommonOpPopTrans {}.operate(&mut ctx, &Vec::new());
    assert_eq!(ctx.current_local_trans, before);
}

#[test]
fn popping_an_empty_context_changes_nothing() {
    let mut ctx = GenerateCtx::default();
    let before = ctx.current_local_trans;
    let out = CommonOpPopTrans {}.operate(&mut ctx, &Vec::new());
    assert!(out.is_empty());
    assert!(!ctx.grouping);
    assert_eq!(ctx.current_local_trans, before);
    assert_eq!(ctx.local_trans_stack.len(), 0);
}

#[test]
fn identity_transform_keeps_points() {
    let id = mat_identity();
    assert_eq!(apply_point(&id, 123, -456), (123, -456));
    let empty: Vec<Mat3> = Vec::new();
    assert_eq!(calc_trans_stack(&empty), id);
}

#[test]
fn move_descriptor_emits_the_transformed_target() {
    let mut ctx = GenerateCtx::default();
    let argv = AnyData::convert_vec(vec![3_000_000, 4_000_000]);
    let pts = CommonOpMOVE {}.operate(&mut ctx, &argv);
    assert_eq!(pts, vec![VecLineData::new(3_000_000, 4_000_000)]);
    assert!(!ctx.grouping);
    assert_eq!(ctx.cursor, VecLineData::new(3_000_000, 4_000_000));
}

#[test]
fn command_pack_binds_the_arguments() {
    let mut c = Command { dsc: VecOpsType::VecOpMove, argv: Vec::new() };
    c.pack(AnyData::convert_vec(vec![1, 2]));
    assert_eq!(c.argv.len(), 2);
    let mut ctx = GenerateCtx::default();
    let pts = c.operate(&mut ctx);
    assert_eq!(pts.len(), 1);
}

#[test]
fn any_data_casts_and_compares() {
    let a = AnyData::new(5);
    assert_eq!(a.cast(), 5);
    let b = AnyData::new(5);
    assert_eq!(*b.cast_ref(), 5);
    assert!(a.equal(&b));
    let c = a.clone();
    assert!(c.equal(&b));
    assert_eq!(AnyData::new(1).compare(&AnyData::new(2)), Ordering::Less);
    assert_eq!(AnyData::new(2).compare(&AnyData::new(2)), Ordering::Equal);
    assert_eq!(AnyData::new(3).compare(&AnyData::new(2)), Ordering::Greater);
    let v = AnyData::convert_vec(vec![7, 8]);
    assert_eq!(v.len(), 2);
    assert_eq!(v[1].cast(), 8);
}

#[test]
fn points_compare_by_coordinates() {
    let p = VecLineData::new(1, 2);
    assert!(p.is_same(&VecLineData::new(1, 2)));
    assert!(!p.is_same(&VecLineData::new(1, 3)));
    let pos = p.pos();
    assert_eq!(pos[0].cast(), 1);
    assert_eq!(pos[1].cast(), 2);
}

#[test]
fn registry_matches_and_suggests() {
    let syn = CommonVecOpSyntax {};
    assert_eq!(syn.name(), "CommonVecOpSyntax");
    assert!(!syn.case_sensitive());
    let hit = syn.match_command("rotate").expect("alias should resolve");
    assert_eq!(hit.dsc, VecOpsType::VecOpPushRotate);
    let sugg = syn.match_command("LIEN").expect_err("no exact hit");
    assert_eq!(sugg, "LINE");
    let none = syn.match_command("XYZZY").expect_err("no exact hit");
    assert_eq!(none, "");
    assert_eq!(syn.formats().len(), 17);
    assert_eq!(syn.keywords().len(), 27);
}

#[test]
fn text_data_source_hands_back_its_text() {
    let src = TextDataSrc::new("MOVE 1,1,".to_owned());
    assert_eq!(src.get("anything"), Some("MOVE 1,1,".to_owned()));
}

#[test]
fn parse_error_default_is_internal() {
    let e = ParseError::default();
    assert_eq!(e.msg, "Internal Error");
    assert_eq!(e.cursor.pos, 0);
}
