use dm_rs::{
    client_size, encode_bool, encode_double, encode_i32, encode_i64, encode_str, invoke, invoke0,
    plan, resolution, resolve, served, settle, transported, CallKind, DispatchId, DmError, DmSoft,
    Double, Environment, Invocation, Kind, Operation, Rect, Reply, StatusRule, TaggedValue, Target,
    OBJECT_IDENTIFIER,
};
use std::cell::RefCell;
use std::collections::VecDeque;
use std::rc::Rc;

/// What the mock saw of one invocation.
#[derive(Debug, Clone, PartialEq)]
struct Seen {
    id: DispatchId,
    kind: CallKind,
    has_array: bool,
    slots: Vec<TaggedValue>,
}

#[derive(Debug, Default)]
struct Log {
    asked: Vec<String>,
    seen: Vec<Seen>,
    replies: VecDeque<Result<Reply, i32>>,
    lookup_failures: VecDeque<i32>,
}

/// A target with a table of names that answers from a queue of replies.
#[derive(Debug, Clone)]
struct Mock {
    names: Vec<(&'static str, DispatchId)>,
    log: Rc<RefCell<Log>>,
}

impl Mock {
    fn new(names: &[(&'static str, DispatchId)]) -> Mock {
        Mock { names: names.to_vec(), log: Rc::new(RefCell::new(Log::default())) }
    }

    fn replying(names: &[(&'static str, DispatchId)], reply: Result<TaggedValue, i32>) -> Mock {
        let mock = Mock::new(names);
        mock.reply(reply);
        mock
    }

    fn reply(&self, reply: Result<TaggedValue, i32>) {
        self.log.borrow_mut().replies.push_back(reply.map(Reply::Value));
    }

    fn reply_with(&self, reply: Reply) {
        self.log.borrow_mut().replies.push_back(Ok(reply));
    }

    fn fail_next_lookup(&self, code: i32) {
        self.log.borrow_mut().lookup_failures.push_back(code);
    }

    fn asked(&self) -> Vec<String> {
        self.log.borrow().asked.clone()
    }

    fn seen(&self) -> Vec<Seen> {
        self.log.borrow().seen.clone()
    }

    fn only_call(&self) -> Seen {
        let seen = self.seen();
        assert_eq!(seen.len(), 1, "the target is called once");
        seen[0].clone()
    }
}

impl Target for Mock {
    fn id_of_name(&self, name: &str) -> Result<Option<DispatchId>, i32> {
        let mut log = self.log.borrow_mut();
        log.asked.push(name.to_string());
        if let Some(code) = log.lookup_failures.pop_front() {
            return Err(code);
        }
        Ok(self.names.iter().find(|(known, _)| *known == name).map(|(_, id)| *id))
    }

    fn invoke(&self, invocation: &Invocation) -> Result<Reply, i32> {
        let block = &invocation.block;
        let mut slots = Vec::new();
        let mut position = 0;
        while let Some(value) = block.slot(position) {
            slots.push(value.clone());
            position += 1;
        }
        assert_eq!(slots.len(), block.count() as usize);
        let mut log = self.log.borrow_mut();
        log.seen.push(Seen {
            id: invocation.id,
            kind: invocation.kind,
            has_array: block.has_array(),
            slots,
        });
        log.replies.pop_front().expect("a reply is configured")
    }
}

/// An environment that hands out one mock and answers geometry queries
/// with one rectangle.
#[derive(Debug)]
struct Host {
    object: Result<Mock, i32>,
    rect: Result<Rect, i32>,
    acquired: RefCell<Vec<String>>,
    queried: RefCell<Vec<i64>>,
}

impl Host {
    fn with(object: Result<Mock, i32>) -> Host {
        Host {
            object,
            rect: Err(0),
            acquired: RefCell::new(Vec::new()),
            queried: RefCell::new(Vec::new()),
        }
    }
}

impl Environment for Host {
    type Object = Mock;

    fn acquire(&self, identifier: &str) -> Result<Mock, i32> {
        self.acquired.borrow_mut().push(identifier.to_string());
        self.object.clone()
    }

    fn client_rect(&self, window: i64) -> Result<Rect, i32> {
        self.queried.borrow_mut().push(window);
        self.rect
    }
}

fn facade(mock: &Mock) -> DmSoft<Host> {
    DmSoft::new(Host::with(Ok(mock.clone()))).unwrap()
}

fn double(v: f64) -> Double {
    Double::from_bits(v.to_bits())
}

const E_DISCONNECTED: i32 = -2147417848;

#[test]
fn version_is_returned_as_string() {
    let mock = Mock::replying(&[("Ver", 0)], Ok(TaggedValue::String("3.1233".to_string())));
    let typed = facade(&mock);
    assert_eq!(typed.ver(), Ok("3.1233".to_string()));
    assert_eq!(mock.asked(), vec!["Ver".to_string()]);
    let call = mock.only_call();
    assert_eq!(call.id, 0);
    assert_eq!(call.kind, CallKind::Method);
    assert!(!call.has_array);
    assert!(call.slots.is_empty());
}

#[test]
fn registration_failure_is_reported() {
    let mock = Mock::replying(&[("Ver", 0), ("Reg", 1)], Ok(TaggedValue::Integer32(-1)));
    let typed = facade(&mock);
    assert_eq!(typed.reg("code123", "ver1"), Err(DmError::OperationReported(-1)));
    let call = mock.only_call();
    assert_eq!(call.id, 1);
    assert!(call.has_array);
    assert_eq!(call.slots, vec![encode_str("ver1"), encode_str("code123")]);
    assert_eq!(call.slots[0], encode_str("ver1"));
}

#[test]
fn resolving_twice_gives_the_same_handle() {
    let mock = Mock::new(&[("Ver", 0), ("Reg", 1)]);
    let first = resolve(&mock, "Reg");
    let second = resolve(&mock, "Reg");
    assert_eq!(first, Ok(1));
    assert_eq!(second, first);
    assert_eq!(mock.asked(), vec!["Reg".to_string(), "Reg".to_string()]);
}

#[test]
fn transport_failure_leaves_the_target_usable() {
    let mock = Mock::new(&[("Ver", 0)]);
    mock.reply(Err(E_DISCONNECTED));
    mock.reply(Ok(TaggedValue::String("3.1233".to_string())));
    let typed = facade(&mock);
    assert_eq!(typed.ver(), Err(DmError::CallFailed { code: E_DISCONNECTED }));
    assert_eq!(typed.ver(), Ok("3.1233".to_string()));
    assert_eq!(mock.seen().len(), 2);
}

#[test]
fn resolve_of_unknown_name_fails() {
    let mock = Mock::new(&[("Ver", 0)]);
    assert_eq!(
        resolve(&mock, "NoSuchOperation"),
        Err(DmError::ResolutionFailed { name: "NoSuchOperation".to_string() })
    );
    assert_eq!(resolve(&mock, ""), Err(DmError::ResolutionFailed { name: String::new() }));
    assert_eq!(resolve(&mock, "ver"), Err(DmError::ResolutionFailed { name: "ver".to_string() }));
    assert_eq!(resolve(&mock, "Ver"), Ok(0));
}

#[test]
fn resolution_makes_up_no_handle() {
    assert_eq!(resolution("Reg", Ok(Some(0))), Ok(0));
    assert_eq!(resolution("Reg", Ok(Some(-7))), Ok(-7));
    assert_eq!(
        resolution("Reg", Ok(None)),
        Err(DmError::ResolutionFailed { name: "Reg".to_string() })
    );
    assert_ne!(resolution("Reg", Ok(None)), Ok(0));
    assert_eq!(
        resolution("Reg", Err(E_DISCONNECTED)),
        Err(DmError::CallFailed { code: E_DISCONNECTED })
    );
}

#[test]
fn unknown_operation_is_not_invoked() {
    let mock = Mock::new(&[("Reg", 1)]);
    let typed = facade(&mock);
    assert_eq!(typed.ver(), Err(DmError::ResolutionFailed { name: "Ver".to_string() }));
    assert_eq!(typed.left_click(), Err(DmError::ResolutionFailed { name: "LeftClick".to_string() }));
    assert!(mock.seen().is_empty());
}

#[test]
fn plan_lays_out_a_method_call() {
    let invocation = plan(9, vec![encode_i64(1), encode_str("two"), encode_bool(true)]).unwrap();
    assert_eq!(invocation.id, 9);
    assert_eq!(invocation.kind, CallKind::Method);
    assert_eq!(invocation.block.count(), 3);
    assert_eq!(invocation.block.slot(0), Some(&encode_bool(true)));
    assert_eq!(invocation.block.slot(1), Some(&encode_str("two")));
    assert_eq!(invocation.block.slot(2), Some(&encode_i64(1)));
    let none = plan(9, Vec::new()).unwrap();
    assert!(!none.block.has_array());
    assert_eq!(none.block.count(), 0);
}

#[test]
fn invoke_hands_over_the_reversed_block() {
    let mock = Mock::replying(&[], Ok(TaggedValue::Boolean(true)));
    let r = invoke(&mock, 4, vec![encode_i32(1), encode_i32(2), encode_i32(3)]);
    assert_eq!(r, Ok(TaggedValue::Boolean(true)));
    let call = mock.only_call();
    assert_eq!(call.id, 4);
    assert_eq!(call.kind, CallKind::Method);
    assert_eq!(call.slots, vec![encode_i32(3), encode_i32(2), encode_i32(1)]);
    assert!(mock.asked().is_empty());
}

#[test]
fn invoke0_hands_over_no_array() {
    let mock = Mock::replying(&[], Ok(TaggedValue::Empty));
    assert_eq!(invoke0(&mock, 2), Ok(TaggedValue::Empty));
    let call = mock.only_call();
    assert_eq!(call.id, 2);
    assert_eq!(call.kind, CallKind::Method);
    assert!(!call.has_array);
    assert!(call.slots.is_empty());
}

#[test]
fn call_without_arguments_differs_from_call_with_empty_value() {
    let mock = Mock::new(&[]);
    mock.reply(Ok(TaggedValue::Empty));
    mock.reply(Ok(TaggedValue::Empty));
    invoke0(&mock, 2).unwrap();
    invoke(&mock, 2, vec![TaggedValue::Empty]).unwrap();
    let seen = mock.seen();
    assert!(!seen[0].has_array);
    assert_eq!(seen[0].slots.len(), 0);
    assert!(seen[1].has_array);
    assert_eq!(seen[1].slots, vec![TaggedValue::Empty]);
    assert_ne!(seen[0], seen[1]);
}

#[test]
fn invoke_reports_the_transport_status() {
    let mock = Mock::replying(&[], Err(E_DISCONNECTED));
    assert_eq!(invoke0(&mock, 0), Err(DmError::CallFailed { code: E_DISCONNECTED }));
    assert_eq!(transported(Err(5)), Err(DmError::CallFailed { code: 5 }));
    assert_eq!(transported(Ok(Reply::Value(encode_i32(5)))), Ok(encode_i32(5)));
}

#[test]
fn settle_checks_kind_then_rule() {
    assert_eq!(settle(Kind::Integer32, StatusRule::Any, encode_i32(0)), Ok(encode_i32(0)));
    assert_eq!(settle(Kind::Integer32, StatusRule::Any, encode_i32(-3)), Ok(encode_i32(-3)));
    assert_eq!(settle(Kind::Integer32, StatusRule::Positive, encode_i32(1)), Ok(encode_i32(1)));
    assert_eq!(
        settle(Kind::Integer32, StatusRule::Positive, encode_i32(0)),
        Err(DmError::OperationReported(0))
    );
    assert_eq!(
        settle(Kind::Integer32, StatusRule::Positive, encode_i32(-1)),
        Err(DmError::OperationReported(-1))
    );
    assert_eq!(
        settle(Kind::Integer32, StatusRule::Positive, encode_i64(-1)),
        Err(DmError::TypeMismatch { expected: Kind::Integer32, actual: Kind::Integer64 })
    );
    assert_eq!(settle(Kind::Integer64, StatusRule::Positive, encode_i64(-1)), Ok(encode_i64(-1)));
    assert_eq!(settle(Kind::String, StatusRule::Any, encode_str("x")), Ok(encode_str("x")));
}

#[test]
fn operation_of_the_callers_own_is_performed() {
    let mock = Mock::replying(&[("GetID", 30)], Ok(TaggedValue::Integer64(77)));
    let op = Operation::new("GetID", vec![encode_bool(true)], Kind::Integer64, StatusRule::Any);
    assert_eq!(op.name, "GetID");
    assert_eq!(op.arguments, vec![encode_bool(true)]);
    assert_eq!(op.perform(&mock), Ok(TaggedValue::Integer64(77)));
    let call = mock.only_call();
    assert_eq!(call.id, 30);
    assert_eq!(call.slots, vec![encode_bool(true)]);
}

#[test]
fn registration_success_is_the_status() {
    let mock = Mock::replying(&[("Reg", 1)], Ok(TaggedValue::Integer32(1)));
    assert_eq!(facade(&mock).reg("code123", "ver1"), Ok(1));
    let zero = Mock::replying(&[("Reg", 1)], Ok(TaggedValue::Integer32(0)));
    assert_eq!(facade(&zero).reg("code123", "ver1"), Err(DmError::OperationReported(0)));
}

#[test]
fn status_of_other_operations_is_not_judged() {
    let mock = Mock::replying(&[("SetPath", 3)], Ok(TaggedValue::Integer32(0)));
    assert_eq!(facade(&mock).set_path("c:\\plugin"), Ok(0));
    let call = mock.only_call();
    assert_eq!(call.id, 3);
    assert_eq!(call.slots, vec![encode_str("c:\\plugin")]);
}

#[test]
fn wrong_result_kind_is_a_mismatch() {
    let mock = Mock::replying(&[("Ver", 0)], Ok(TaggedValue::Integer32(3)));
    assert_eq!(
        facade(&mock).ver(),
        Err(DmError::TypeMismatch { expected: Kind::String, actual: Kind::Integer32 })
    );
    let wide = Mock::replying(&[("MoveTo", 5)], Ok(TaggedValue::Integer64(1)));
    assert_eq!(
        facade(&wide).move_to(1, 2),
        Err(DmError::TypeMismatch { expected: Kind::Integer32, actual: Kind::Integer64 })
    );
    let empty = Mock::replying(&[("Ocr", 6)], Ok(TaggedValue::Empty));
    assert_eq!(
        facade(&empty).ocr(0, 0, 1, 1, "ffffff-000000", double(1.0)),
        Err(DmError::TypeMismatch { expected: Kind::String, actual: Kind::Empty })
    );
}

#[test]
fn enable_pic_cache_passes_a_32_bit_one() {
    let mock = Mock::replying(&[("EnablePicCache", 11)], Ok(TaggedValue::Integer32(1)));
    assert_eq!(facade(&mock).enable_pic_cache(), Ok(1));
    let call = mock.only_call();
    assert_eq!(call.id, 11);
    assert_eq!(call.slots, vec![encode_i32(1)]);
}

#[test]
fn set_dict_passes_index_then_file() {
    let mock = Mock::replying(&[("SetDict", 12)], Ok(TaggedValue::Integer32(1)));
    assert_eq!(facade(&mock).set_dict(2, "soft.txt"), Ok(1));
    assert_eq!(mock.only_call().slots, vec![encode_str("soft.txt"), encode_i64(2)]);
}

#[test]
fn set_row_gap_no_dict_passes_the_gap() {
    let mock = Mock::replying(&[("SetRowGapNoDict", 13)], Ok(TaggedValue::Integer32(1)));
    assert_eq!(facade(&mock).set_row_gap_no_dict(4), Ok(1));
    assert_eq!(mock.only_call().slots, vec![encode_i64(4)]);
}

#[test]
fn set_window_size_passes_window_width_height() {
    let mock = Mock::replying(&[("SetWindowSize", 14)], Ok(TaggedValue::Integer32(1)));
    assert_eq!(facade(&mock).set_window_size(1001, 800, 600), Ok(1));
    let call = mock.only_call();
    assert_eq!(call.id, 14);
    assert_eq!(call.slots, vec![encode_i64(600), encode_i64(800), encode_i64(1001)]);
}

#[test]
fn set_client_size_passes_window_width_height() {
    let mock = Mock::replying(&[("SetClientSize", 15)], Ok(TaggedValue::Integer32(1)));
    assert_eq!(facade(&mock).set_client_size(1001, 640, 480), Ok(1));
    let call = mock.only_call();
    assert_eq!(call.id, 15);
    assert_eq!(call.slots, vec![encode_i64(480), encode_i64(640), encode_i64(1001)]);
}

#[test]
fn bind_window_ex_passes_six_arguments() {
    let mock = Mock::replying(&[("BindWindowEx", 16)], Ok(TaggedValue::Integer32(1)));
    let r = facade(&mock).bind_window_ex(1001, "gdi", "windows", "normal", "", 0);
    assert_eq!(r, Ok(1));
    assert_eq!(
        mock.only_call().slots,
        vec![
            encode_i64(0),
            encode_str(""),
            encode_str("normal"),
            encode_str("windows"),
            encode_str("gdi"),
            encode_i64(1001),
        ]
    );
}

#[test]
fn ocr_passes_region_colour_similarity() {
    let mock = Mock::replying(&[("Ocr", 17)], Ok(TaggedValue::String("text".to_string())));
    let r = facade(&mock).ocr(1, 2, 3, 4, "ffffff-000000", double(0.9));
    assert_eq!(r, Ok("text".to_string()));
    assert_eq!(
        mock.only_call().slots,
        vec![
            encode_double(double(0.9)),
            encode_str("ffffff-000000"),
            encode_i64(4),
            encode_i64(3),
            encode_i64(2),
            encode_i64(1),
        ]
    );
}

#[test]
fn find_pic_ex_passes_eight_arguments() {
    let mock = Mock::replying(&[("FindPicEx", 18)], Ok(TaggedValue::String("0,5,6".to_string())));
    let r = facade(&mock).find_pic_ex(1, 2, 3, 4, "a.bmp|b.bmp", "101010", double(0.8), 2);
    assert_eq!(r, Ok("0,5,6".to_string()));
    assert_eq!(
        mock.only_call().slots,
        vec![
            encode_i64(2),
            encode_double(double(0.8)),
            encode_str("101010"),
            encode_str("a.bmp|b.bmp"),
            encode_i64(4),
            encode_i64(3),
            encode_i64(2),
            encode_i64(1),
        ]
    );
}

#[test]
fn move_to_passes_x_then_y() {
    let mock = Mock::replying(&[("MoveTo", 19)], Ok(TaggedValue::Integer32(1)));
    assert_eq!(facade(&mock).move_to(30, 40), Ok(1));
    assert_eq!(mock.only_call().slots, vec![encode_i64(40), encode_i64(30)]);
}

#[test]
fn left_click_passes_nothing() {
    let mock = Mock::replying(&[("LeftClick", 20)], Ok(TaggedValue::Integer32(1)));
    assert_eq!(facade(&mock).left_click(), Ok(1));
    let call = mock.only_call();
    assert_eq!(call.id, 20);
    assert!(!call.has_array);
}

#[test]
fn find_color_e_passes_seven_arguments() {
    let mock = Mock::replying(&[("FindColorE", 21)], Ok(TaggedValue::String("7|8".to_string())));
    let r = facade(&mock).find_color_e(1, 2, 3, 4, "123456-000000", double(1.0), 0);
    assert_eq!(r, Ok("7|8".to_string()));
    assert_eq!(
        mock.only_call().slots,
        vec![
            encode_i64(0),
            encode_double(double(1.0)),
            encode_str("123456-000000"),
            encode_i64(4),
            encode_i64(3),
            encode_i64(2),
            encode_i64(1),
        ]
    );
}

#[test]
fn operations_state_name_arguments_kind_and_rule() {
    let reg = Operation::reg("code123", "ver1");
    assert_eq!(reg.name, "Reg");
    assert_eq!(reg.arguments, vec![encode_str("code123"), encode_str("ver1")]);
    assert_eq!(reg.expects, Kind::Integer32);
    assert_eq!(reg.rule, StatusRule::Positive);
    let ver = Operation::ver();
    assert_eq!(ver.name, "Ver");
    assert!(ver.arguments.is_empty());
    assert_eq!(ver.expects, Kind::String);
    assert_eq!(ver.rule, StatusRule::Any);
    let ocr = Operation::ocr(1, 2, 3, 4, "c", double(0.5));
    assert_eq!(ocr.name, "Ocr");
    assert_eq!(
        ocr.arguments,
        vec![
            encode_i64(1),
            encode_i64(2),
            encode_i64(3),
            encode_i64(4),
            encode_str("c"),
            encode_double(double(0.5)),
        ]
    );
    assert_eq!(ocr.expects, Kind::String);
}

#[test]
fn new_acquires_the_plugin() {
    let mock = Mock::new(&[("Ver", 0)]);
    let typed = DmSoft::new(Host::with(Ok(mock))).unwrap();
    assert_eq!(OBJECT_IDENTIFIER, "dm.dmsoft");
    assert_eq!(*typed.env.acquired.borrow(), vec!["dm.dmsoft".to_string()]);
    assert_eq!(typed.obj.names, vec![("Ver", 0)]);
}

#[test]
fn new_reports_the_environment() {
    let r = DmSoft::new(Host::with(Err(-2147221005)));
    assert_eq!(r.err(), Some(DmError::EnvironmentError { code: -2147221005 }));
    assert_eq!(served(Err::<Rect, i32>(7)), Err(DmError::EnvironmentError { code: 7 }));
    assert_eq!(served(Ok(7u8)), Ok(7u8));
}

#[test]
fn get_client_size_is_right_and_bottom() {
    let mock = Mock::new(&[]);
    let mut host = Host::with(Ok(mock.clone()));
    host.rect = Ok(Rect { left: 0, top: 0, right: 800, bottom: 600 });
    let typed = DmSoft::new(host).unwrap();
    assert_eq!(typed.get_client_size(1001), Ok((800, 600)));
    assert_eq!(*typed.env.queried.borrow(), vec![1001]);
    assert!(mock.asked().is_empty());
    assert!(mock.seen().is_empty());
    assert_eq!(client_size(Rect { left: 1, top: 2, right: 3, bottom: 4 }), (3, 4));
}

#[test]
fn get_client_size_reports_the_environment() {
    let mut host = Host::with(Ok(Mock::new(&[])));
    host.rect = Err(1400);
    let typed = DmSoft::new(host).unwrap();
    assert_eq!(typed.get_client_size(5), Err(DmError::EnvironmentError { code: 1400 }));
}

#[test]
fn failed_lookup_is_not_an_unknown_name() {
    let mock = Mock::new(&[("Ver", 0)]);
    mock.fail_next_lookup(E_DISCONNECTED);
    assert_eq!(resolve(&mock, "Ver"), Err(DmError::CallFailed { code: E_DISCONNECTED }));
    assert_eq!(resolve(&mock, "Ver"), Ok(0));
    mock.fail_next_lookup(E_DISCONNECTED);
    mock.reply(Ok(TaggedValue::String("3.1233".to_string())));
    let typed = facade(&mock);
    assert_eq!(typed.ver(), Err(DmError::CallFailed { code: E_DISCONNECTED }));
    assert!(mock.seen().is_empty());
    assert_eq!(typed.ver(), Ok("3.1233".to_string()));
}

#[test]
fn null_reply_is_the_empty_value() {
    assert_eq!(transported(Ok(Reply::Null)), Ok(TaggedValue::Empty));
    let mock = Mock::new(&[("Ver", 0), ("Clear", 8)]);
    mock.reply_with(Reply::Null);
    assert_eq!(invoke0(&mock, 8), Ok(TaggedValue::Empty));
    mock.reply_with(Reply::Null);
    assert_eq!(
        facade(&mock).ver(),
        Err(DmError::TypeMismatch { expected: Kind::String, actual: Kind::Empty })
    );
}

#[test]
fn reply_of_unsupported_kind_is_an_encoding_failure() {
    assert_eq!(transported(Ok(Reply::Unsupported)), Err(DmError::EncodingFailed));
    let mock = Mock::new(&[("Ver", 0), ("MoveTo", 5)]);
    mock.reply_with(Reply::Unsupported);
    assert_eq!(invoke0(&mock, 0), Err(DmError::EncodingFailed));
    mock.reply_with(Reply::Unsupported);
    assert_eq!(facade(&mock).ver(), Err(DmError::EncodingFailed));
    mock.reply_with(Reply::Unsupported);
    assert_eq!(facade(&mock).move_to(1, 2), Err(DmError::EncodingFailed));
}

#[test]
fn reply_clone_keeps_the_value() {
    for reply in [Reply::Value(encode_str("x")), Reply::Null, Reply::Unsupported] {
        assert_eq!(reply.clone(), reply);
    }
}
