//! The state the GUI front end sees and the replies to its commands.
use vstd::prelude::*;

verus! {

/// What the front end knows of the application; `H` is the handle of the GUI.
#[derive(Debug)]
pub struct gState<H> {
    pub appHandle: Option<H>,
    pub running: bool,
    pub configured: bool,
    pub addr: String,
}

impl<H> gState<H> {
    /// Nothing configured, nothing running, on port `COM4`.
    pub fn new() -> (g: Self)
        ensures
            g.appHandle is None,
            !g.running,
            !g.configured,
            g.addr@ == "COM4"@,
    {
        gState { appHandle: None, running: false, configured: false, addr: "COM4".to_owned() }
    }

    /// Remembers the GUI handle.
    pub fn set_handle(&mut self, handle: H)
        ensures
            final(self).appHandle == Some(handle),
            final(self).running == old(self).running,
            final(self).configured == old(self).configured,
            final(self).addr == old(self).addr,
    {
        self.appHandle = Some(handle);
    }

    /// Records that the front end asked for the status, which marks the
    /// application configured.
    pub fn set_status(&mut self)
        ensures
            final(self).configured,
            final(self).appHandle == old(self).appHandle,
            final(self).running == old(self).running,
            final(self).addr == old(self).addr,
    {
        self.configured = true;
    }
}

/// The shared front-end state, once it exists; `W` is the shared handle to it.
#[derive(Debug)]
pub struct tauriState<W> {
    pub tauriEngine: Option<W>,
}

impl<W> tauriState<W> {
    /// No front-end state yet.
    pub fn new() -> (t: Self)
        ensures
            t.tauriEngine is None,
    {
        tauriState { tauriEngine: None }
    }
}

/// The sample JSON the front end can ask for.
pub fn resultJson() -> (s: String)
    ensures
        s@ == "{\"name\": \"Markus\", \"value\": 5}"@,
{
    "{\"name\": \"Markus\", \"value\": 5}".to_owned()
}

/// The text the front end's file test gets.
pub fn testFile() -> (s: String)
    ensures
        s@ == "fdgsdfgasdfgfdg"@,
{
    "fdgsdfgasdfgfdg".to_owned()
}

/// The greeting printed at start-up for the input file `input` and the debug
/// setting `rdbg`.
pub fn welcome_message(input: &str, rdbg: bool) -> (s: String)
    ensures
        s@ == "Hello!\nUsing \""@ + input@ + "\" as input. DBG setting is \""@ + (if rdbg {
            "true"@
        } else {
            "false"@
        }) + "\"\n"@,
{
    let mut s = "Hello!\nUsing \"".to_owned();
    s.append(input);
    s.append("\" as input. DBG setting is \"");
    if rdbg {
        s.append("true");
    } else {
        s.append("false");
    }
    s.append("\"\n");
    s
}

/// The error every command gives while the serial control does not exist yet.
pub fn missing_context_error() -> (s: String)
    ensures
        s@ == "FAILED TO GET SERIAL CONTEXT CONTROL"@,
{
    "FAILED TO GET SERIAL CONTEXT CONTROL".to_owned()
}

/// The reply to a play request; `send_error` is the failure of sending the
/// command to the manager, if it failed.
pub fn ctrl_play_reply(send_error: Option<String>) -> (r: Result<String, String>)
    ensures
        match send_error {
            None => r matches Ok(s) && s@ == "PLAY COMMAND sent successfully!"@,
            Some(e) => r matches Err(s) && s@ == "PLAY COMMAND FAILED TO SEND "@ + e@,
        },
{
    match send_error {
        None => Ok("PLAY COMMAND sent successfully!".to_owned()),
        Some(e) => Err("PLAY COMMAND FAILED TO SEND ".to_owned().concat(e.as_str())),
    }
}

/// The reply to a pause request; `send_error` is the failure of sending the
/// command to the manager, if it failed.
pub fn ctrl_pause_reply(send_error: Option<String>) -> (r: Result<String, String>)
    ensures
        match send_error {
            None => r matches Ok(s) && s@ == "PAUSE COMMAND sent successfully!"@,
            Some(e) => r matches Err(s) && s@ == "PAUSE COMMAND FAILED TO SEND "@ + e@,
        },
{
    match send_error {
        None => Ok("PAUSE COMMAND sent successfully!".to_owned()),
        Some(e) => Err("PAUSE COMMAND FAILED TO SEND ".to_owned().concat(e.as_str())),
    }
}

/// The reply to a JSON command; `parse_error` is the parser's message when the
/// text was not a command.  A failure to pass a parsed command on is not an error.
pub fn send_cmd_reply(parse_error: Option<String>) -> (r: Result<(), String>)
    ensures
        match parse_error {
            None => r is Ok,
            Some(e) => r matches Err(s) && s@ == "Failed to parse JSON "@ + e@,
        },
{
    match parse_error {
        None => Ok(()),
        Some(e) => Err("Failed to parse JSON ".to_owned().concat(e.as_str())),
    }
}

/// The reply to new settings once they were passed on.
pub fn send_cfg_reply() -> (s: String)
    ensures
        s@ == "Just a message"@,
{
    "Just a message".to_owned()
}

} // verus!
