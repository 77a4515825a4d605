//! The commands of the mode-control boundary: plain accessors for the document
//! and the two switches, and the line that tells where the reader is served.

use crate::server::SERVER_PORT;
use crate::state::{read_view, AppState, StoreUnavailable};
use crate::text::{decimal_digits, push_decimal, result_view};
use vstd::prelude::*;

verus! {

/// What reading the document gives a command: the text, or the words of the
/// failure.
pub open spec fn text_result_of(read: Result<Seq<char>, StoreUnavailable>) -> Result<
    Seq<char>,
    Seq<char>,
> {
    match read {
        Ok(text) => Ok(text),
        Err(_) => Err("Failed to acquire read lock: "@ + StoreUnavailable::message_text()),
    }
}

/// What writing the document gives a command: nothing, or the words of the
/// failure.
pub open spec fn write_result_of(written: Result<(), StoreUnavailable>) -> Result<(), Seq<char>> {
    match written {
        Ok(_) => Ok(()),
        Err(_) => Err(
            "Failed to acquire write lock for set_text: "@ + StoreUnavailable::message_text(),
        ),
    }
}

/// The line that tells where the reader is served, or that no address was
/// found.
pub open spec fn server_info_text(local_ip: Option<Seq<char>>) -> Seq<char> {
    match local_ip {
        Some(ip) => "Откройте на читалке: http://"@ + ip + ":"@ + decimal_digits(SERVER_PORT as nat)
            + "/get"@,
        None => "Не удалось определить IP-адрес. Проверьте подключение к сети."@,
    }
}

/// The view of the failure side of a result.
pub open spec fn unit_result_view(result: Result<(), String>) -> Result<(), Seq<char>> {
    match result {
        Ok(_) => Ok(()),
        Err(message) => Err(message@),
    }
}

/// Turns what reading the store gave into the result of the command.
pub fn text_result(read: Result<String, StoreUnavailable>) -> (result: Result<String, String>)
    ensures
        result_view(result) == text_result_of(read_view(read)),
{
    match read {
        Ok(text) => Ok(text),
        Err(error) => {
            let mut message = String::from_str("Failed to acquire read lock: ");
            message.append(error.message().as_str());
            Err(message)
        },
    }
}

/// Turns what writing the store gave into the result of the command.
pub fn write_result(written: Result<(), StoreUnavailable>) -> (result: Result<(), String>)
    ensures
        unit_result_view(result) == write_result_of(written),
{
    match written {
        Ok(_) => Ok(()),
        Err(error) => {
            let mut message = String::from_str("Failed to acquire write lock for set_text: ");
            message.append(error.message().as_str());
            Err(message)
        },
    }
}

/// The current document: a text that the store holds, handed on unchanged,
/// or the words of the failure.
pub fn get_text(state: &AppState) -> (result: Result<String, String>)
    ensures
        exists|read: Result<Seq<char>, StoreUnavailable>|
            result_view(result) == text_result_of(read),
        result matches Ok(text) ==> state.shared_text.holds(text@),
{
    let read = state.shared_text.read();
    text_result(read)
}

/// Replaces the document by `new_text`, whatever it holds, the empty text
/// too. `Ok` is returned only for a text that went into the store.
pub fn set_text(new_text: String, state: &AppState) -> (result: Result<(), String>)
    ensures
        exists|written: Result<(), StoreUnavailable>|
            unit_result_view(result) == write_result_of(written),
        result is Ok ==> state.shared_text.holds(new_text@),
{
    let written = state.shared_text.write(new_text);
    write_result(written)
}

/// The line that tells where the reader is served, given the machine's
/// address in the local network if one was found.
pub fn get_server_info(local_ip: Option<String>) -> (result: Result<String, String>)
    ensures
        result_view(result) == Ok::<Seq<char>, Seq<char>>(
            server_info_text(
                match local_ip {
                    Some(ip) => Some(ip@),
                    None => None,
                },
            ),
        ),
{
    match local_ip {
        Some(ip) => {
            let mut line = String::from_str("Откройте на читалке: http://");
            line.append(ip.as_str());
            line.append(":");
            push_decimal(&mut line, SERVER_PORT as u128);
            line.append("/get");
            Ok(line)
        },
        None => Ok(
            String::from_str("Не удалось определить IP-адрес. Проверьте подключение к сети."),
        ),
    }
}

/// Turns replacing the document on copy on or off.
pub fn set_send_on_copy(enabled: bool, state: &AppState) -> (result: Result<(), String>)
    ensures
        result is Ok,
{
    state.set_send_on_copy(enabled);
    Ok(())
}

/// Turns adding to the editor on copy on or off.
pub fn set_add_to_editor_on_copy(enabled: bool, state: &AppState) -> (result: Result<(), String>)
    ensures
        result is Ok,
{
    state.set_add_to_editor_on_copy(enabled);
    Ok(())
}

} // verus!
