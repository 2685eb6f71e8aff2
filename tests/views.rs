use yarp::ast::program::Program;
use yarp::comment::{Comment, CommentType};
use yarp::constant::{constant_pool, Constant};
use yarp::diagnostic::Diagnostic;
use yarp::encoding::Encoding;
use yarp::engine::{NodeKind, RawComment, RawConstant, RawDiagnostic, RawNode};
use yarp::error::Error;
use yarp::list::{comments, diagnostics, ListCursor, Step};
use yarp::location::{translate_offset, Location};

#[test]
fn location_is_translated_against_base() {
    let l = Location::inner_new(1017, 1042, 1000);
    assert_eq!(l.as_range(), &(17usize..42usize));
}

#[test]
fn location_below_base_saturates_at_zero() {
    let l = Location::inner_new(5, 20, 10);
    assert_eq!(l.as_range(), &(0usize..10usize));
    assert_eq!(translate_offset(0, usize::MAX), 0);
    assert_eq!(translate_offset(usize::MAX, 0), usize::MAX);
}

#[test]
fn translation_keeps_order_for_every_base() {
    let pairs = [(0usize, 0usize), (0, 1), (3, 9), (100, 100), (usize::MAX - 1, usize::MAX)];
    let bases = [0usize, 1, 3, 5, 9, 10, 100, usize::MAX];
    for &(s, e) in pairs.iter() {
        for &b in bases.iter() {
            let r = Location::inner_new(s, e, b);
            assert!(r.as_range().start <= r.as_range().end);
        }
    }
}

#[test]
fn locations_compare_by_range() {
    assert_eq!(Location::inner_new(3, 4, 1), Location::inner_new(12, 13, 10));
    assert_ne!(Location::inner_new(3, 4, 1), Location::inner_new(3, 5, 1));
}

#[test]
fn comment_tags_are_classified() {
    assert_eq!(CommentType::from_tag(0), Ok(CommentType::Inline));
    assert_eq!(CommentType::from_tag(1), Ok(CommentType::Embdoc));
    assert_eq!(CommentType::from_tag(2), Ok(CommentType::End));
    assert_eq!(CommentType::from_tag(3), Err(Error::UnknownCommentType(3)));
}

#[test]
fn comment_copies_type_and_location() {
    let c = Comment::inner_new(&RawComment { type_tag: 1, start: 110, end: 130 }, 100).unwrap();
    assert_eq!(c.type_(), CommentType::Embdoc);
    assert_eq!(c.location().as_range(), &(10usize..30usize));
    let d = Comment::inner_new(&RawComment { type_tag: 1, start: 10, end: 30 }, 0).unwrap();
    assert!(c == d);
    let e = Comment::inner_new(&RawComment { type_tag: 2, start: 10, end: 30 }, 0).unwrap();
    assert!(c != e);
}

#[test]
fn comments_keep_list_order() {
    let raw = vec![
        RawComment { type_tag: 0, start: 50, end: 58 },
        RawComment { type_tag: 2, start: 70, end: 90 },
    ];
    let cs = comments(&raw, 50).unwrap();
    assert_eq!(cs.len(), 2);
    assert_eq!(cs[0].location().as_range(), &(0usize..8usize));
    assert_eq!(cs[1].type_(), CommentType::End);
    assert_eq!(cs[1].location().as_range(), &(20usize..40usize));
    assert!(comments(&Vec::new(), 50).unwrap().is_empty());
}

#[test]
fn comments_with_unknown_tag_fail() {
    let raw = vec![
        RawComment { type_tag: 0, start: 0, end: 1 },
        RawComment { type_tag: 42, start: 1, end: 2 },
    ];
    assert_eq!(comments(&raw, 0).unwrap_err(), Error::UnknownCommentType(42));
}

#[test]
fn diagnostic_message_is_decoded_lossily() {
    let raw = RawDiagnostic { message: vec![b'b', b'a', b'd', 0xff], start: 7, end: 9 };
    let d = Diagnostic::new(&raw, 4);
    assert_eq!(d.message(), "bad\u{FFFD}");
    assert_eq!(d.location(), &(3usize..5usize));
}

#[test]
fn diagnostics_keep_list_order() {
    let raw = vec![
        RawDiagnostic { message: b"first".to_vec(), start: 10, end: 12 },
        RawDiagnostic { message: b"second".to_vec(), start: 11, end: 11 },
    ];
    let ds = diagnostics(&raw, 10);
    assert_eq!(ds.len(), 2);
    assert_eq!(ds[0].message(), "first");
    assert_eq!(ds[0].location(), &(0usize..2usize));
    assert_eq!(ds[1].message(), "second");
    assert!(ds[0] != ds[1]);
    assert!(ds[0] == Diagnostic::new(&raw[0], 10));
}

#[test]
fn cursor_walks_to_the_null_successor() {
    let mut cursor = ListCursor::new(10);
    assert_eq!(cursor.advance(true), Step::Visit);
    assert_eq!(cursor.advance(true), Step::Visit);
    assert_eq!(cursor.advance(false), Step::Done);
    assert_eq!(cursor.visited(), 2);
    assert_eq!(cursor.advance(true), Step::Done);
}

#[test]
fn cursor_on_empty_list_is_done() {
    let mut cursor = ListCursor::new(10);
    assert_eq!(cursor.advance(false), Step::Done);
    assert_eq!(cursor.visited(), 0);
}

#[test]
fn cursor_stops_a_cyclic_list_at_its_ceiling() {
    let mut cursor = ListCursor::new(3);
    for _ in 0..3 {
        assert_eq!(cursor.advance(true), Step::Visit);
    }
    assert_eq!(cursor.advance(true), Step::TooLong);
    assert_eq!(cursor.advance(true), Step::Done);
    assert_eq!(cursor.visited(), 3);
}

#[test]
fn constant_pool_drops_unused_slots() {
    let pool = vec![
        RawConstant { id: 0, hash: 1, name: b"a".to_vec() },
        RawConstant { id: 0, hash: 2, name: b"b".to_vec() },
    ];
    assert!(constant_pool(&pool).is_empty());
    assert!(constant_pool(&Vec::new()).is_empty());
    let c = Constant::new(&RawConstant { id: 4, hash: 8, name: b"foo".to_vec() });
    assert_eq!(c.id(), 4);
    assert_eq!(c.name(), b"foo");
}

#[test]
fn program_requires_program_kind() {
    let node = RawNode { kind: NodeKind::Other(12), start: 0, end: 4, locals: vec![1] };
    assert_eq!(Program::try_new(&node, 0).unwrap_err(), Error::NotAProgram);
    let node = RawNode { kind: NodeKind::Program, start: 104, end: 110, locals: Vec::new() };
    let p = Program::try_new(&node, 100).unwrap();
    assert_eq!(p.location().as_range(), &(4usize..10usize));
    assert!(p.locals().is_empty());
}

#[test]
fn encoding_keeps_its_name() {
    assert_eq!(Encoding::new("ASCII-8BIT".to_string()).name(), "ASCII-8BIT");
}
