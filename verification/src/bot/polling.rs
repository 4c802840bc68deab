//! Polling Telegram for updates.

use crate::telegram::types::{ApiResponse, Update};
use crate::text;
use crate::text::signed_decimal_text;
use vstd::prelude::*;

verus! {

pub const TELEGRAM_API_URL: &'static str = "https://api.telegram.org/bot";

/// The pause after a failed poll, in seconds.
pub const POLL_PAUSE_SECS: u64 = 10;

/// The address at which the updates behind the last one are asked for.
pub fn get_updates_url(bot_token: &str, last_update_id: i64) -> (r: String)
    requires
        last_update_id < i64::MAX,
    ensures
        r@ == "https://api.telegram.org/bot"@ + bot_token@ + "/getUpdates?offset="@
            + text::signed_decimal(last_update_id + 1) + "&timeout=50"@,
{
    let mut out = TELEGRAM_API_URL.to_owned();
    out.append(bot_token);
    out.append("/getUpdates?offset=");
    out.append(signed_decimal_text(last_update_id + 1).as_str());
    out.append("&timeout=50");
    out
}

/// How a poll was answered: by an envelope, or by a status that is no success.
pub enum PollAnswer {
    Envelope(ApiResponse<Vec<Update>>),
    HttpError,
}

/// What follows a poll: the updates are handled one by one, or there is a pause, or polling stops
/// for good.
pub enum PollStep {
    Handle(Vec<Update>),
    Pause,
    Stop(String),
}

/// Whether an error is one that polling cannot get over: the token is wrong.
pub open spec fn is_fatal(error_code: Option<i32>) -> bool {
    error_code == Some(401i32) || error_code == Some(404i32)
}

/// Judges the answer to a poll.
pub fn run_bot_loop(answer: PollAnswer) -> (r: PollStep)
    ensures
        match answer {
            PollAnswer::Envelope(envelope) => if envelope.ok {
                match envelope.result {
                    Some(updates) => r == PollStep::Handle(updates),
                    None => r matches PollStep::Handle(none) && none@.len() == 0,
                }
            } else if is_fatal(envelope.error_code) {
                r matches PollStep::Stop(message) && message@ == "telegram API error "@
                    + text::signed_decimal(envelope.error_code->0 as int) + ": "@
                    + match envelope.description {
                    Some(d) => d@,
                    None => seq![],
                }
            } else {
                r is Pause
            },
            PollAnswer::HttpError => r is Pause,
        },
{
    match answer {
        PollAnswer::Envelope(envelope) => {
            if envelope.ok {
                return match envelope.result {
                    Some(updates) => PollStep::Handle(updates),
                    None => PollStep::Handle(Vec::new()),
                };
            }
            if let Some(code) = envelope.error_code {
                if code == 401 || code == 404 {
                    let mut message = "telegram API error ".to_owned();
                    message.append(signed_decimal_text(code as i64).as_str());
                    message.append(": ");
                    match envelope.description {
                        Some(d) => message.append(d.as_str()),
                        None => {
                            proof {
                                assert(message@ + Seq::<char>::empty() =~= message@);
                            }
                        },
                    }
                    return PollStep::Stop(message);
                }
            }
            PollStep::Pause
        },
        PollAnswer::HttpError => PollStep::Pause,
    }
}

/// The last update once a list of updates has been handled.
pub open spec fn last_after(last_update_id: i64, updates: Seq<Update>) -> i64 {
    if updates.len() == 0 {
        last_update_id
    } else {
        updates.last().update_id
    }
}

/// The last update once a list of updates has been handled, whether or not handling them failed.
pub fn last_update_after(last_update_id: i64, updates: &Vec<Update>) -> (r: i64)
    ensures
        r == last_after(last_update_id, updates@),
{
    if updates.len() == 0 {
        last_update_id
    } else {
        updates[updates.len() - 1].update_id
    }
}

/// Polling goes on behind the last update that was handled: where the updates come in the order of
/// their numbers, that is the greatest of them, and where none came, nothing changes.
pub proof fn law_polling_goes_on_behind_what_was_handled(
    last_update_id: i64,
    updates: Seq<Update>,
)
    ensures
        updates.len() == 0 ==> last_after(last_update_id, updates) == last_update_id,
        updates.len() > 0 ==> last_after(last_update_id, updates) == updates[updates.len()
            - 1].update_id,
        updates.len() > 0 && (forall|i: int, j: int|
            0 <= i <= j < updates.len() ==> (#[trigger] updates[i]).update_id <= (
            #[trigger] updates[j]).update_id) ==> forall|i: int|
            0 <= i < updates.len() ==> (#[trigger] updates[i]).update_id <= last_after(
                last_update_id,
                updates,
            ),
{
    if updates.len() > 0 {
        assert(updates.last() == updates[updates.len() - 1]);
    }
}

/// Just two errors are ones that polling cannot get over: that the token is not authorized, and
/// that it is not found.
pub proof fn law_a_wrong_token_stops_polling(code: i32)
    ensures
        is_fatal(Some(code)) <==> code == 401 || code == 404,
        !is_fatal(None),
{
}

/// A poll that went well hands on all its updates, and the next one asks for what lies behind the
/// last of them; one that failed is tried again after a pause, unless the token is wrong.
pub proof fn law_polls_are_followed(
    envelope: ApiResponse<Vec<Update>>,
    bot_token: &str,
    last_update_id: i64,
    step: PollStep,
    unreachable: PollStep,
    handled: i64,
    url: String,
)
    requires
        call_ensures(run_bot_loop, (PollAnswer::Envelope(envelope),), step),
        call_ensures(run_bot_loop, (PollAnswer::HttpError,), unreachable),
        call_ensures(get_updates_url, (bot_token, handled), url),
        envelope.result matches Some(updates) ==> call_ensures(
            last_update_after,
            (last_update_id, &updates),
            handled,
        ),
    ensures
        unreachable is Pause,
        envelope.ok ==> (step matches PollStep::Handle(updates) && match envelope.result {
            Some(given) => updates == given,
            None => updates@.len() == 0,
        }),
        !envelope.ok && (envelope.error_code == Some(401i32) || envelope.error_code == Some(404i32))
            ==> step is Stop,
        !envelope.ok && envelope.error_code != Some(401i32) && envelope.error_code != Some(404i32)
            ==> step is Pause,
        envelope.result matches Some(updates) ==> updates@.len() > 0 ==> url@
            == "https://api.telegram.org/bot"@ + bot_token@ + "/getUpdates?offset="@
            + text::signed_decimal(updates@[updates@.len() - 1].update_id + 1) + "&timeout=50"@,
{
}

} // verus!
