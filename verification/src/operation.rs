//! The operations of the plug-in: for each its name, its arguments in the
//! order of the call, the kind of its result, and which results count as
//! failures.

use crate::codec::{decode, encode_double, encode_i32, encode_i64, encode_str, mismatch};
use crate::driver::{invoke, invoked, resolve, resolved};
use crate::error::{DmError, DmResult};
use crate::target::{DispatchId, Target};
use crate::value::{models, Double, Kind, Tagged, TaggedValue};
use vstd::prelude::*;

verus! {

/// Which results of an operation count as failures of the operation.
#[derive(Clone, Copy, Debug, PartialEq, Eq, Structural)]
pub enum StatusRule {
    /// Every result is a result.
    Any,
    /// A 32-bit status of 0 or less reports a failure.
    Positive,
}

impl StatusRule {
    /// Whether `value` reports a failure under this rule.
    pub open spec fn rejects(self, value: Tagged) -> bool {
        &&& self == StatusRule::Positive
        &&& value matches Tagged::Integer32(status)
        &&& status <= 0
    }
}

/// What a call yields once the object has returned `value`: a type
/// mismatch where the value has not the kind `expects`, `OperationReported`
/// with the status where `rule` rejects it, and the value otherwise.
pub open spec fn settled(expects: Kind, rule: StatusRule, value: Tagged) -> Result<Tagged, DmError> {
    if value.kind() != expects {
        Err(mismatch(expects, value.kind()))
    } else if rule.rejects(value) {
        Err(DmError::OperationReported(value->Integer32_0))
    } else {
        Ok(value)
    }
}

/// Judges the value that the object returned for an operation with the
/// result kind `expects` and the rule `rule`.
pub fn settle(expects: Kind, rule: StatusRule, value: TaggedValue) -> (r: DmResult<TaggedValue>)
    ensures
        match r {
            Ok(v) => settled(expects, rule, value@) == Ok::<Tagged, DmError>(v@),
            Err(e) => settled(expects, rule, value@) == Err::<Tagged, DmError>(e),
        },
{
    let checked = decode(value, expects)?;
    match (rule, &checked) {
        (StatusRule::Positive, TaggedValue::Integer32(status)) => {
            if *status <= 0 {
                Err(DmError::OperationReported(*status))
            } else {
                Ok(checked)
            }
        },
        _ => Ok(checked),
    }
}

/// One operation, ready to be called.
#[derive(Debug, PartialEq, Eq)]
pub struct Operation {
    /// The name under which the object exposes the operation.
    pub name: String,
    /// The arguments, in the order of the call.
    pub arguments: Vec<TaggedValue>,
    /// The kind of the result.
    pub expects: Kind,
    /// Which results count as failures.
    pub rule: StatusRule,
}

impl Operation {
    /// Whether the operation has this name, these arguments in this order,
    /// this result kind and this rule.
    pub open spec fn consists_of(
        self,
        name: Seq<char>,
        arguments: Seq<Tagged>,
        expects: Kind,
        rule: StatusRule,
    ) -> bool {
        &&& self.name@ == name
        &&& models(self.arguments@) =~= arguments
        &&& self.expects == expects
        &&& self.rule == rule
    }

    /// What may come of performing the operation, whatever the target
    /// answers. A result has the expected kind and passes the rule; each
    /// error says what it says of this operation.
    pub open spec fn admits(self, r: DmResult<TaggedValue>) -> bool {
        let fits = self.arguments@.len() <= u32::MAX;
        match r {
            Ok(value) => fits && settled(self.expects, self.rule, value@) == Ok::<Tagged, DmError>(
                value@,
            ),
            Err(DmError::ResolutionFailed { name }) => name@ == self.name@,
            Err(DmError::EncodingFailed) => true,
            Err(DmError::CallFailed { .. }) => true,
            Err(DmError::TypeMismatch { expected, actual }) => fits && expected == self.expects
                && actual != self.expects,
            Err(DmError::OperationReported(status)) => fits && self.expects == Kind::Integer32
                && self.rule.rejects(Tagged::Integer32(status)),
            Err(DmError::EnvironmentError { .. }) => false,
        }
    }

    /// Whether `r` is what comes of performing the operation on `target`.
    /// The target was asked for the handle of the operation's name. Where
    /// that failed, `r` is the error. Where the arguments are too many to
    /// lay out, `r` is `EncodingFailed` and the target was not called.
    /// Otherwise the target was called with the handle and the layout of
    /// the arguments, and `r` is the error of the call or what [`settled`]
    /// makes of the value that came back.
    pub open spec fn performed<T: Target>(self, target: &T, r: DmResult<TaggedValue>) -> bool {
        exists|found: DmResult<DispatchId>| #[trigger]
            resolved(target, self.name@, found) && match found {
                Err(e) => r == Err::<TaggedValue, DmError>(e),
                Ok(id) => if self.arguments@.len() > u32::MAX {
                    r == Err::<TaggedValue, DmError>(DmError::EncodingFailed)
                } else {
                    exists|value: DmResult<TaggedValue>| #[trigger]
                        invoked(target, id, models(self.arguments@), value) && match value {
                            Err(e) => r == Err::<TaggedValue, DmError>(e),
                            Ok(v) => match settled(self.expects, self.rule, v@) {
                                Ok(kept) => r matches Ok(out) && out@ == kept,
                                Err(e) => r == Err::<TaggedValue, DmError>(e),
                            },
                        }
                },
            }
    }

    /// An operation of the caller's own making.
    pub fn new(name: &str, arguments: Vec<TaggedValue>, expects: Kind, rule: StatusRule) -> (op:
        Operation)
        ensures
            op.consists_of(name@, models(arguments@), expects, rule),
    {
        Operation { name: name.to_owned(), arguments, expects, rule }
    }

    /// The version of the plug-in: `Ver()`, a string.
    pub fn ver() -> (op: Operation)
        ensures
            op.consists_of(
                "Ver"@,
                Seq::<Tagged>::empty(),
                Kind::String,
                StatusRule::Any,
            ),
    {
        Operation::new(
            "Ver",
            Vec::new(),
            Kind::String,
            StatusRule::Any,
        )
    }

    /// Switches the picture cache on: `EnablePicCache(1)`, a status.
    pub fn enable_pic_cache() -> (op: Operation)
        ensures
            op.consists_of(
                "EnablePicCache"@,
                seq![Tagged::Integer32(1)],
                Kind::Integer32,
                StatusRule::Any,
            ),
    {
        Operation::new(
            "EnablePicCache",
            vec![encode_i32(1)],
            Kind::Integer32,
            StatusRule::Any,
        )
    }

    /// Registers the plug-in: `Reg(code, ver)`, a status of which only a
    /// positive one is a success.
    pub fn reg(code: &str, ver: &str) -> (op: Operation)
        ensures
            op.consists_of(
                "Reg"@,
                seq![Tagged::String(code@), Tagged::String(ver@)],
                Kind::Integer32,
                StatusRule::Positive,
            ),
    {
        Operation::new(
            "Reg",
            vec![encode_str(code), encode_str(ver)],
            Kind::Integer32,
            StatusRule::Positive,
        )
    }

    /// Sets the working directory: `SetPath(path)`, a status.
    pub fn set_path(path: &str) -> (op: Operation)
        ensures
            op.consists_of(
                "SetPath"@,
                seq![Tagged::String(path@)],
                Kind::Integer32,
                StatusRule::Any,
            ),
    {
        Operation::new(
            "SetPath",
            vec![encode_str(path)],
            Kind::Integer32,
            StatusRule::Any,
        )
    }

    /// Loads a dictionary file into a slot: `SetDict(index, file)`, a
    /// status.
    pub fn set_dict(index: i64, file: &str) -> (op: Operation)
        ensures
            op.consists_of(
                "SetDict"@,
                seq![Tagged::Integer64(index), Tagged::String(file@)],
                Kind::Integer32,
                StatusRule::Any,
            ),
    {
        Operation::new(
            "SetDict",
            vec![encode_i64(index), encode_str(file)],
            Kind::Integer32,
            StatusRule::Any,
        )
    }

    /// Sets the row gap for recognition without a dictionary:
    /// `SetRowGapNoDict(row_gap)`, a status.
    pub fn set_row_gap_no_dict(row_gap: i64) -> (op: Operation)
        ensures
            op.consists_of(
                "SetRowGapNoDict"@,
                seq![Tagged::Integer64(row_gap)],
                Kind::Integer32,
                StatusRule::Any,
            ),
    {
        Operation::new(
            "SetRowGapNoDict",
            vec![encode_i64(row_gap)],
            Kind::Integer32,
            StatusRule::Any,
        )
    }

    /// Resizes a window: `SetWindowSize(hwnd, width, height)`, a status.
    pub fn set_window_size(hwnd: i64, width: i64, height: i64) -> (op: Operation)
        ensures
            op.consists_of(
                "SetWindowSize"@,
                seq![
                    Tagged::Integer64(hwnd),
                    Tagged::Integer64(width),
                    Tagged::Integer64(height),
                ],
                Kind::Integer32,
                StatusRule::Any,
            ),
    {
        Operation::new(
            "SetWindowSize",
            vec![encode_i64(hwnd), encode_i64(width), encode_i64(height)],
            Kind::Integer32,
            StatusRule::Any,
        )
    }

    /// Resizes the client area of a window:
    /// `SetClientSize(hwnd, width, height)`, a status.
    pub fn set_client_size(hwnd: i64, width: i64, height: i64) -> (op: Operation)
        ensures
            op.consists_of(
                "SetClientSize"@,
                seq![
                    Tagged::Integer64(hwnd),
                    Tagged::Integer64(width),
                    Tagged::Integer64(height),
                ],
                Kind::Integer32,
                StatusRule::Any,
            ),
    {
        Operation::new(
            "SetClientSize",
            vec![encode_i64(hwnd), encode_i64(width), encode_i64(height)],
            Kind::Integer32,
            StatusRule::Any,
        )
    }

    /// Binds the plug-in to a window:
    /// `BindWindowEx(hwnd, display, mouse, keypad, public, mode)`, a status.
    pub fn bind_window_ex(
        hwnd: i64,
        display: &str,
        mouse: &str,
        keypad: &str,
        public: &str,
        mode: i64,
    ) -> (op: Operation)
        ensures
            op.consists_of(
                "BindWindowEx"@,
                seq![
                    Tagged::Integer64(hwnd),
                    Tagged::String(display@),
                    Tagged::String(mouse@),
                    Tagged::String(keypad@),
                    Tagged::String(public@),
                    Tagged::Integer64(mode),
                ],
                Kind::Integer32,
                StatusRule::Any,
            ),
    {
        Operation::new(
            "BindWindowEx",
            vec![
                encode_i64(hwnd),
                encode_str(display),
                encode_str(mouse),
                encode_str(keypad),
                encode_str(public),
                encode_i64(mode),
            ],
            Kind::Integer32,
            StatusRule::Any,
        )
    }

    /// Recognises the text in a region of the screen:
    /// `Ocr(x1, y1, x2, y2, color, sim)`, a string.
    pub fn ocr(x1: i64, y1: i64, x2: i64, y2: i64, color: &str, sim: Double) -> (op: Operation)
        ensures
            op.consists_of(
                "Ocr"@,
                seq![
                    Tagged::Integer64(x1),
                    Tagged::Integer64(y1),
                    Tagged::Integer64(x2),
                    Tagged::Integer64(y2),
                    Tagged::String(color@),
                    Tagged::Float64(sim),
                ],
                Kind::String,
                StatusRule::Any,
            ),
    {
        Operation::new(
            "Ocr",
            vec![
                encode_i64(x1),
                encode_i64(y1),
                encode_i64(x2),
                encode_i64(y2),
                encode_str(color),
                encode_double(sim),
            ],
            Kind::String,
            StatusRule::Any,
        )
    }

    /// Finds pictures in a region of the screen:
    /// `FindPicEx(x1, y1, x2, y2, pic_name, delta_color, sim, dir)`, a string.
    pub fn find_pic_ex(
        x1: i64,
        y1: i64,
        x2: i64,
        y2: i64,
        pic_name: &str,
        delta_color: &str,
        sim: Double,
        dir: i64,
    ) -> (op: Operation)
        ensures
            op.consists_of(
                "FindPicEx"@,
                seq![
                    Tagged::Integer64(x1),
                    Tagged::Integer64(y1),
                    Tagged::Integer64(x2),
                    Tagged::Integer64(y2),
                    Tagged::String(pic_name@),
                    Tagged::String(delta_color@),
                    Tagged::Float64(sim),
                    Tagged::Integer64(dir),
                ],
                Kind::String,
                StatusRule::Any,
            ),
    {
        Operation::new(
            "FindPicEx",
            vec![
                encode_i64(x1),
                encode_i64(y1),
                encode_i64(x2),
                encode_i64(y2),
                encode_str(pic_name),
                encode_str(delta_color),
                encode_double(sim),
                encode_i64(dir),
            ],
            Kind::String,
            StatusRule::Any,
        )
    }

    /// Moves the mouse pointer: `MoveTo(x, y)`, a status.
    pub fn move_to(x: i64, y: i64) -> (op: Operation)
        ensures
            op.consists_of(
                "MoveTo"@,
                seq![Tagged::Integer64(x), Tagged::Integer64(y)],
                Kind::Integer32,
                StatusRule::Any,
            ),
    {
        Operation::new(
            "MoveTo",
            vec![encode_i64(x), encode_i64(y)],
            Kind::Integer32,
            StatusRule::Any,
        )
    }

    /// Clicks the left mouse button: `LeftClick()`, a status.
    pub fn left_click() -> (op: Operation)
        ensures
            op.consists_of(
                "LeftClick"@,
                Seq::<Tagged>::empty(),
                Kind::Integer32,
                StatusRule::Any,
            ),
    {
        Operation::new(
            "LeftClick",
            Vec::new(),
            Kind::Integer32,
            StatusRule::Any,
        )
    }

    /// Finds a colour in a region of the screen:
    /// `FindColorE(x1, y1, x2, y2, color, sim, dir)`, a string. The colour is
    /// written `RRGGBB-DRDGDB`.
    pub fn find_color_e(
        x1: i64,
        y1: i64,
        x2: i64,
        y2: i64,
        color: &str,
        sim: Double,
        dir: i64,
    ) -> (op: Operation)
        ensures
            op.consists_of(
                "FindColorE"@,
                seq![
                    Tagged::Integer64(x1),
                    Tagged::Integer64(y1),
                    Tagged::Integer64(x2),
                    Tagged::Integer64(y2),
                    Tagged::String(color@),
                    Tagged::Float64(sim),
                    Tagged::Integer64(dir),
                ],
                Kind::String,
                StatusRule::Any,
            ),
    {
        Operation::new(
            "FindColorE",
            vec![
                encode_i64(x1),
                encode_i64(y1),
                encode_i64(x2),
                encode_i64(y2),
                encode_str(color),
                encode_double(sim),
                encode_i64(dir),
            ],
            Kind::String,
            StatusRule::Any,
        )
    }

    /// Performs the operation on `target`: resolves the name, lays out the
    /// arguments, makes the one call and judges what comes back. The first
    /// stage that fails ends the call with its error.
    pub fn perform<T: Target>(self, target: &T) -> (r: DmResult<TaggedValue>)
        ensures
            self.performed(target, r),
            self.admits(r),
    {
        let Operation { name, arguments, expects, rule } = self;
        let found = resolve(target, name.as_str());
        let id = match found {
            Ok(id) => id,
            Err(e) => {
                return Err(e);
            },
        };
        let value = invoke(target, id, arguments);
        match value {
            Ok(v) => settle(expects, rule, v),
            Err(e) => Err(e),
        }
    }
}

} // verus!
