//! The typed facade: the operations of the plug-in as methods.

use crate::codec::{decode_i32, decode_string, decoded_i32, decoded_string};
use crate::error::{DmError, DmResult};
use crate::operation::{Operation, StatusRule};
use crate::target::{Environment, Rect, Target};
use crate::value::{Double, Kind, Tagged, TaggedValue};
use vstd::prelude::*;

verus! {

/// The identifier under which the plug-in is registered with the host.
pub const OBJECT_IDENTIFIER: &'static str = "dm.dmsoft";

/// What a service of the environment yields once it has answered: its
/// value, or `EnvironmentError` with its status.
pub fn served<T>(answer: Result<T, i32>) -> (r: DmResult<T>)
    ensures
        answer matches Ok(value) ==> r == Ok::<T, DmError>(value),
        answer matches Err(code) ==> r == Err::<T, DmError>(DmError::EnvironmentError { code }),
{
    match answer {
        Ok(value) => Ok(value),
        Err(code) => Err(DmError::EnvironmentError { code }),
    }
}

/// What may come of an operation called `name` that returns a status and
/// is judged by `rule`, whatever the target answers.
pub open spec fn status_outcome(name: Seq<char>, rule: StatusRule, r: DmResult<i32>) -> bool {
    match r {
        Ok(status) => !rule.rejects(Tagged::Integer32(status)),
        Err(DmError::ResolutionFailed { name: unknown }) => unknown@ == name,
        Err(DmError::TypeMismatch { expected, actual }) => expected == Kind::Integer32 && actual
            != Kind::Integer32,
        Err(DmError::CallFailed { .. }) => true,
        Err(DmError::OperationReported(status)) => rule.rejects(Tagged::Integer32(status)),
        Err(DmError::EncodingFailed) => true,
        Err(DmError::EnvironmentError { .. }) => false,
    }
}

/// What may come of an operation called `name` that returns a string,
/// whatever the target answers.
pub open spec fn text_outcome(name: Seq<char>, r: DmResult<String>) -> bool {
    match r {
        Ok(_) => true,
        Err(DmError::ResolutionFailed { name: unknown }) => unknown@ == name,
        Err(DmError::TypeMismatch { expected, actual }) => expected == Kind::String && actual
            != Kind::String,
        Err(DmError::CallFailed { .. }) => true,
        Err(DmError::OperationReported(_)) => false,
        Err(DmError::EncodingFailed) => true,
        Err(DmError::EnvironmentError { .. }) => false,
    }
}

/// Whether `r` is what comes of performing `op` on `target` and decoding
/// the value as a 32-bit status.
pub open spec fn status_performed<T: Target>(op: Operation, target: &T, r: DmResult<i32>) -> bool {
    exists|value: DmResult<TaggedValue>| #[trigger]
        op.performed(target, value) && match value {
            Err(e) => r == Err::<i32, DmError>(e),
            Ok(v) => r == decoded_i32(v@),
        }
}

/// Whether `r` is what comes of performing `op` on `target` and decoding
/// the value as a string.
pub open spec fn text_performed<T: Target>(op: Operation, target: &T, r: DmResult<String>) -> bool {
    exists|value: DmResult<TaggedValue>| #[trigger]
        op.performed(target, value) && match value {
            Err(e) => r == Err::<String, DmError>(e),
            Ok(v) => match decoded_string(v@) {
                Ok(text) => r matches Ok(s) && s@ == text,
                Err(e) => r == Err::<String, DmError>(e),
            },
        }
}

/// Whether `r` is what comes of calling, on `target`, the operation `name`
/// with `arguments` in this order, which returns a status judged by
/// `rule`.
pub open spec fn status_called<T: Target>(
    target: &T,
    name: Seq<char>,
    arguments: Seq<Tagged>,
    rule: StatusRule,
    r: DmResult<i32>,
) -> bool {
    exists|op: Operation|
        op.consists_of(name, arguments, Kind::Integer32, rule) && #[trigger] status_performed(
            op,
            target,
            r,
        )
}

/// Whether `r` is what comes of calling, on `target`, the operation `name`
/// with `arguments` in this order, which returns a string.
pub open spec fn text_called<T: Target>(
    target: &T,
    name: Seq<char>,
    arguments: Seq<Tagged>,
    r: DmResult<String>,
) -> bool {
    exists|op: Operation|
        op.consists_of(name, arguments, Kind::String, StatusRule::Any) && #[trigger] text_performed(
            op,
            target,
            r,
        )
}

/// Whether `r` is what comes of acquiring the plug-in from `env`: the
/// environment was asked for [`OBJECT_IDENTIFIER`], and `r` is a facade of
/// the object it handed out and of `env`, or `EnvironmentError` with its
/// status.
pub open spec fn acquired<E: Environment>(env: E, r: DmResult<DmSoft<E>>) -> bool {
    exists|asked: &str, answer: Result<E::Object, i32>|
        asked@ == OBJECT_IDENTIFIER@ && #[trigger] call_ensures(E::acquire, (&env, asked), answer)
            && match answer {
            Ok(handle) => r matches Ok(soft) && soft.obj == handle && soft.env == env,
            Err(code) => r == Err::<DmSoft<E>, DmError>(DmError::EnvironmentError { code }),
        }
}

/// Whether `r` is what comes of asking `env` for the client area of the
/// window `hwnd`: its right and bottom edge, or `EnvironmentError` with
/// the status of the query.
pub open spec fn measured<E: Environment>(env: &E, hwnd: i64, r: DmResult<(i32, i32)>) -> bool {
    exists|answer: Result<Rect, i32>| #[trigger]
        call_ensures(E::client_rect, (env, hwnd), answer) && match answer {
            Ok(rect) => r == Ok::<(i32, i32), DmError>((rect.right, rect.bottom)),
            Err(code) => r == Err::<(i32, i32), DmError>(DmError::EnvironmentError { code }),
        }
}

/// The plug-in: one automation object and the environment it came from.
/// Every call of a facade goes to the same object.
#[derive(Debug)]
pub struct DmSoft<E: Environment> {
    pub obj: E::Object,
    pub env: E,
}

impl<E: Environment> DmSoft<E> {
    /// Acquires the plug-in from `env`, under [`OBJECT_IDENTIFIER`], and
    /// keeps `env` for the queries that go to it directly.
    pub fn new(env: E) -> (r: DmResult<Self>)
        ensures
            acquired(env, r),
    {
        let answer = env.acquire(OBJECT_IDENTIFIER);
        assert(call_ensures(E::acquire, (&env, OBJECT_IDENTIFIER), answer));
        let obj = served(answer)?;
        Ok(DmSoft { obj, env })
    }

    /// Performs an operation that returns a status.
    fn status(&self, operation: Operation) -> (r: DmResult<i32>)
        requires
            operation.expects == Kind::Integer32,
        ensures
            status_performed(operation, &self.obj, r),
            status_outcome(operation.name@, operation.rule, r),
    {
        match operation.perform(&self.obj) {
            Ok(value) => decode_i32(value),
            Err(e) => Err(e),
        }
    }

    /// Performs an operation that returns a string.
    fn text(&self, operation: Operation) -> (r: DmResult<String>)
        requires
            operation.expects == Kind::String,
        ensures
            text_performed(operation, &self.obj, r),
            text_outcome(operation.name@, r),
    {
        match operation.perform(&self.obj) {
            Ok(value) => decode_string(value),
            Err(e) => Err(e),
        }
    }

    /// The version of the plug-in.
    pub fn ver(&self) -> (r: DmResult<String>)
        ensures
            text_called(
                &self.obj,
                "Ver"@,
                Seq::<Tagged>::empty(),
                r,
            ),
            text_outcome("Ver"@, r),
    {
        self.text(Operation::ver())
    }

    /// Switches the picture cache on and returns the status.
    pub fn enable_pic_cache(&self) -> (r: DmResult<i32>)
        ensures
            status_called(
                &self.obj,
                "EnablePicCache"@,
                seq![Tagged::Integer32(1)],
                StatusRule::Any,
                r,
            ),
            status_outcome("EnablePicCache"@, StatusRule::Any, r),
    {
        self.status(Operation::enable_pic_cache())
    }

    /// Registers the plug-in with a registration code and a version
    /// string. A status of 0 or less is reported as an error.
    pub fn reg(&self, code: &str, ver: &str) -> (r: DmResult<i32>)
        ensures
            status_called(
                &self.obj,
                "Reg"@,
                seq![Tagged::String(code@), Tagged::String(ver@)],
                StatusRule::Positive,
                r,
            ),
            status_outcome("Reg"@, StatusRule::Positive, r),
    {
        self.status(Operation::reg(code, ver))
    }

    /// Sets the working directory and returns the status.
    pub fn set_path(&self, path: &str) -> (r: DmResult<i32>)
        ensures
            status_called(
                &self.obj,
                "SetPath"@,
                seq![Tagged::String(path@)],
                StatusRule::Any,
                r,
            ),
            status_outcome("SetPath"@, StatusRule::Any, r),
    {
        self.status(Operation::set_path(path))
    }

    /// Loads a dictionary file into slot `index` and returns the status.
    pub fn set_dict(&self, index: i64, file: &str) -> (r: DmResult<i32>)
        ensures
            status_called(
                &self.obj,
                "SetDict"@,
                seq![Tagged::Integer64(index), Tagged::String(file@)],
                StatusRule::Any,
                r,
            ),
            status_outcome("SetDict"@, StatusRule::Any, r),
    {
        self.status(Operation::set_dict(index, file))
    }

    /// Sets the row gap for recognition without a dictionary and returns
    /// the status.
    pub fn set_row_gap_no_dict(&self, row_gap: i64) -> (r: DmResult<i32>)
        ensures
            status_called(
                &self.obj,
                "SetRowGapNoDict"@,
                seq![Tagged::Integer64(row_gap)],
                StatusRule::Any,
                r,
            ),
            status_outcome("SetRowGapNoDict"@, StatusRule::Any, r),
    {
        self.status(Operation::set_row_gap_no_dict(row_gap))
    }

    /// Resizes a window and returns the status.
    pub fn set_window_size(&self, hwnd: i64, width: i64, height: i64) -> (r: DmResult<i32>)
        ensures
            status_called(
                &self.obj,
                "SetWindowSize"@,
                seq![
                    Tagged::Integer64(hwnd),
                    Tagged::Integer64(width),
                    Tagged::Integer64(height),
                ],
                StatusRule::Any,
                r,
            ),
            status_outcome("SetWindowSize"@, StatusRule::Any, r),
    {
        self.status(Operation::set_window_size(hwnd, width, height))
    }

    /// The size of the client area of a window: its right and bottom edge.
    /// The environment is asked directly; no operation of the object is
    /// called.
    pub fn get_client_size(&self, hwnd: i64) -> (r: DmResult<(i32, i32)>)
        ensures
            measured(&self.env, hwnd, r),
    {
        let answer = self.env.client_rect(hwnd);
        assert(call_ensures(E::client_rect, (&self.env, hwnd), answer));
        let rect = served(answer)?;
        Ok(client_size(rect))
    }

    /// Resizes the client area of a window and returns the status.
    pub fn set_client_size(&self, hwnd: i64, width: i64, height: i64) -> (r: DmResult<i32>)
        ensures
            status_called(
                &self.obj,
                "SetClientSize"@,
                seq![
                    Tagged::Integer64(hwnd),
                    Tagged::Integer64(width),
                    Tagged::Integer64(height),
                ],
                StatusRule::Any,
                r,
            ),
            status_outcome("SetClientSize"@, StatusRule::Any, r),
    {
        self.status(Operation::set_client_size(hwnd, width, height))
    }

    /// Binds the plug-in to a window, with the modes for display, mouse
    /// and keyboard, and returns the status.
    pub fn bind_window_ex(
        &self,
        hwnd: i64,
        display: &str,
        mouse: &str,
        keypad: &str,
        public: &str,
        mode: i64,
    ) -> (r: DmResult<i32>)
        ensures
            status_called(
                &self.obj,
                "BindWindowEx"@,
                seq![
                    Tagged::Integer64(hwnd),
                    Tagged::String(display@),
                    Tagged::String(mouse@),
                    Tagged::String(keypad@),
                    Tagged::String(public@),
                    Tagged::Integer64(mode),
                ],
                StatusRule::Any,
                r,
            ),
            status_outcome("BindWindowEx"@, StatusRule::Any, r),
    {
        self.status(Operation::bind_window_ex(hwnd, display, mouse, keypad, public, mode))
    }

    /// Recognises the text in the region from (`x1`, `y1`) to (`x2`, `y2`).
    pub fn ocr(&self, x1: i64, y1: i64, x2: i64, y2: i64, color: &str, sim: Double) -> (r: DmResult<
        String,
    >)
        ensures
            text_called(
                &self.obj,
                "Ocr"@,
                seq![
                    Tagged::Integer64(x1),
                    Tagged::Integer64(y1),
                    Tagged::Integer64(x2),
                    Tagged::Integer64(y2),
                    Tagged::String(color@),
                    Tagged::Float64(sim),
                ],
                r,
            ),
            text_outcome("Ocr"@, r),
    {
        self.text(Operation::ocr(x1, y1, x2, y2, color, sim))
    }

    /// Finds pictures in the region from (`x1`, `y1`) to (`x2`, `y2`).
    pub fn find_pic_ex(
        &self,
        x1: i64,
        y1: i64,
        x2: i64,
        y2: i64,
        pic_name: &str,
        delta_color: &str,
        sim: Double,
        dir: i64,
    ) -> (r: DmResult<String>)
        ensures
            text_called(
                &self.obj,
                "FindPicEx"@,
                seq![
                    Tagged::Integer64(x1),
                    Tagged::Integer64(y1),
                    Tagged::Integer64(x2),
                    Tagged::Integer64(y2),
                    Tagged::String(pic_name@),
                    Tagged::String(delta_color@),
                    Tagged::Float64(sim),
                    Tagged::Integer64(dir),
                ],
                r,
            ),
            text_outcome("FindPicEx"@, r),
    {
        self.text(Operation::find_pic_ex(x1, y1, x2, y2, pic_name, delta_color, sim, dir))
    }

    /// Moves the mouse pointer and returns the status.
    pub fn move_to(&self, x: i64, y: i64) -> (r: DmResult<i32>)
        ensures
            status_called(
                &self.obj,
                "MoveTo"@,
                seq![Tagged::Integer64(x), Tagged::Integer64(y)],
                StatusRule::Any,
                r,
            ),
            status_outcome("MoveTo"@, StatusRule::Any, r),
    {
        self.status(Operation::move_to(x, y))
    }

    /// Clicks the left mouse button and returns the status.
    pub fn left_click(&self) -> (r: DmResult<i32>)
        ensures
            status_called(
                &self.obj,
                "LeftClick"@,
                Seq::<Tagged>::empty(),
                StatusRule::Any,
                r,
            ),
            status_outcome("LeftClick"@, StatusRule::Any, r),
    {
        self.status(Operation::left_click())
    }

    /// Finds a colour, written `RRGGBB-DRDGDB`, in the region from (`x1`,
    /// `y1`) to (`x2`, `y2`).
    pub fn find_color_e(
        &self,
        x1: i64,
        y1: i64,
        x2: i64,
        y2: i64,
        color: &str,
        sim: Double,
        dir: i64,
    ) -> (r: DmResult<String>)
        ensures
            text_called(
                &self.obj,
                "FindColorE"@,
                seq![
                    Tagged::Integer64(x1),
                    Tagged::Integer64(y1),
                    Tagged::Integer64(x2),
                    Tagged::Integer64(y2),
                    Tagged::String(color@),
                    Tagged::Float64(sim),
                    Tagged::Integer64(dir),
                ],
                r,
            ),
            text_outcome("FindColorE"@, r),
    {
        self.text(Operation::find_color_e(x1, y1, x2, y2, color, sim, dir))
    }
}

/// The size of a client area: the right and the bottom edge of its
/// rectangle.
pub fn client_size(rect: Rect) -> (size: (i32, i32))
    ensures
        size == (rect.right, rect.bottom),
{
    (rect.right, rect.bottom)
}

} // verus!
