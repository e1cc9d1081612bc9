//! Keeping the client to a single running instance.
//!
//! On Windows a named system mutex marks a running client: the start-up code
//! tries to open it, and `single_instance_decision` says from the outcome
//! whether this instance takes the lock or tells the user that the client
//! already runs and exits.

use vstd::prelude::*;

verus! {

/// The name of the system mutex that marks a running client.
pub fn instance_lock_name() -> (name: &'static str)
    ensures
        name@ == "frper.xsa.link@fuyoo"@,
{
    "frper.xsa.link@fuyoo"
}

/// The system error code for a mutex that does not exist.
pub open spec fn not_found_code() -> u32 {
    2
}

/// The language id of Chinese (Simplified, PRC) user interfaces.
pub open spec fn chinese_ui_language() -> u16 {
    2052
}

/// What a starting client does once it has tried to open the mutex.
pub enum InstanceDecision {
    /// No client runs: create the mutex and keep it while this one runs.
    TakeLock,
    /// A client already runs: show `text` in a message box titled `caption`,
    /// then exit.
    AlreadyRunning { text: &'static str, caption: &'static str },
}

/// Decides from the error code left by opening the mutex and the user's
/// interface language: where the mutex was not found (code 2) this client
/// takes the lock; otherwise one already runs, and the user is told so in
/// Chinese for a Chinese interface (language 2052), in English otherwise.
pub fn single_instance_decision(open_error: u32, ui_language: u16) -> (d: InstanceDecision)
    ensures
        open_error == not_found_code() <==> d is TakeLock,
        open_error != not_found_code() && ui_language == chinese_ui_language() ==> (d matches
            InstanceDecision::AlreadyRunning { text, caption }
            && text@ == "Frper 正在运行中, 请不要重复运行！"@ && caption@ == "提示"@),
        open_error != not_found_code() && ui_language != chinese_ui_language() ==> (d matches
            InstanceDecision::AlreadyRunning { text, caption }
            && text@ == "Frper is Running, Please do not run it again!"@ && caption@ == "Tips"@),
{
    if open_error == 2 {
        InstanceDecision::TakeLock
    } else if ui_language == 2052 {
        InstanceDecision::AlreadyRunning { text: "Frper 正在运行中, 请不要重复运行！", caption: "提示" }
    } else {
        InstanceDecision::AlreadyRunning {
            text: "Frper is Running, Please do not run it again!",
            caption: "Tips",
        }
    }
}

/// Makes sure that only one instance runs, on systems other than Windows.
/// There the client holds no system mutex, so no check is made: a second
/// instance is not detected, and the call changes nothing.
pub fn make_sure_single_case() {
}

} // verus!
