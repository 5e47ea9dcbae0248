//! Slash-command dispatch. Each known command name maps to the function
//! that produces its response text from the interaction's options; every
//! other name gets the fixed fallback reply, never an error.

use vstd::prelude::*;

use crate::num::{dec_str, u64_to_string};
use crate::text::str_eq;

verus! {

/// A resolved value carried by one option of a command interaction.
pub enum CommandOptionValue {
    Int(i64),
    Text(String),
    Flag(bool),
    User { id: u64, username: String },
    Attachment { filename: String, size_bytes: u64 },
}

/// One named option of a command interaction.
pub struct CommandOption {
    pub name: String,
    pub value: CommandOptionValue,
}

pub open spec fn ping_response_text() -> Seq<char> {
    "Hey, I'm alive!"@
}

pub open spec fn fallback_response_text() -> Seq<char> {
    "not implemented :("@
}

/// The reply of the `id` command: who the first user option is, or a
/// request to provide one.
pub open spec fn id_response_text(opts: Seq<CommandOption>) -> Seq<char> {
    if opts.len() > 0 && opts[0].value is User {
        opts[0].value->username@ + "'s id is "@ + dec_str(opts[0].value->id as nat)
    } else {
        "Please provide a valid user"@
    }
}

/// The reply of the `attachmentinput` command: name and size of the first
/// attachment option, or a request to provide one.
pub open spec fn attachment_response_text(opts: Seq<CommandOption>) -> Seq<char> {
    if opts.len() > 0 && opts[0].value is Attachment {
        "Attachment name: "@ + opts[0].value->filename@ + ", attachment size: "@ + dec_str(
            opts[0].value->size_bytes as nat,
        )
    } else {
        "Please provide a valid attachment"@
    }
}

/// The response of a command interaction, by command name.
pub open spec fn dispatch_response_text(name: Seq<char>, opts: Seq<CommandOption>) -> Seq<char> {
    if name == "ping"@ {
        ping_response_text()
    } else if name == "id"@ {
        id_response_text(opts)
    } else if name == "attachmentinput"@ {
        attachment_response_text(opts)
    } else {
        fallback_response_text()
    }
}

pub fn ping_run(_options: &Vec<CommandOption>) -> (r: String)
    ensures
        r@ == ping_response_text(),
{
    String::from_str("Hey, I'm alive!")
}

pub fn id_run(options: &Vec<CommandOption>) -> (r: String)
    ensures
        r@ == id_response_text(options@),
{
    if options.len() > 0 {
        match &options[0].value {
            CommandOptionValue::User { id, username } => {
                let mut r = username.clone();
                r.append("'s id is ");
                let rendered = u64_to_string(*id);
                r.append(rendered.as_str());
                r
            },
            _ => String::from_str("Please provide a valid user"),
        }
    } else {
        String::from_str("Please provide a valid user")
    }
}

pub fn attachmentinput_run(options: &Vec<CommandOption>) -> (r: String)
    ensures
        r@ == attachment_response_text(options@),
{
    if options.len() > 0 {
        match &options[0].value {
            CommandOptionValue::Attachment { filename, size_bytes } => {
                let mut r = String::from_str("Attachment name: ");
                r.append(filename.as_str());
                r.append(", attachment size: ");
                let rendered = u64_to_string(*size_bytes);
                r.append(rendered.as_str());
                r
            },
            _ => String::from_str("Please provide a valid attachment"),
        }
    } else {
        String::from_str("Please provide a valid attachment")
    }
}

/// Answers a command interaction. A name outside the known set gets the
/// fixed fallback string; dispatch itself never fails.
pub fn dispatch_command(name: &str, options: &Vec<CommandOption>) -> (r: String)
    ensures
        r@ == dispatch_response_text(name@, options@),
        name@ != "ping"@ && name@ != "id"@ && name@ != "attachmentinput"@ ==> r@
            == fallback_response_text(),
{
    if str_eq(name, "ping") {
        ping_run(options)
    } else if str_eq(name, "id") {
        id_run(options)
    } else if str_eq(name, "attachmentinput") {
        attachmentinput_run(options)
    } else {
        String::from_str("not implemented :(")
    }
}

/// The names of the commands registered for the guild at startup, in
/// registration order.
pub fn guild_command_names() -> (v: Vec<String>)
    ensures
        v.deep_view() =~= seq!["ping"@, "id"@, "welcome"@, "numberinput"@, "attachmentinput"@],
{
    let mut v: Vec<String> = Vec::new();
    v.push(String::from_str("ping"));
    v.push(String::from_str("id"));
    v.push(String::from_str("welcome"));
    v.push(String::from_str("numberinput"));
    v.push(String::from_str("attachmentinput"));
    proof {
        assert(v.deep_view() =~= seq![
            "ping"@,
            "id"@,
            "welcome"@,
            "numberinput"@,
            "attachmentinput"@,
        ]);
    }
    v
}

/// The name of the one globally registered command.
pub fn global_command_name() -> (r: String)
    ensures
        r@ == "wonderful_command"@,
{
    String::from_str("wonderful_command")
}

} // verus!
