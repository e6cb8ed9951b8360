//! A chat service that runs in your shell: what it makes of each line typed.

use regex::Error as RegexError;
use vstd::prelude::*;
use vstd::string::StringExecFns;

use crate::message::{IncomingMessage, Source};
use crate::pattern::{escape, escaped, regex_compiles, regex_first_match_end, Pattern};
use crate::message::utf8_of;
use crate::user::User;
use vstd::utf8::is_char_boundary;

verus! {

/// The pattern that finds a leading mention of the robot: its username, case-insensitively and
/// after optional whitespace at the start, or the alias.
pub open spec fn mention_pattern_text(username: Seq<char>, alias: Option<Seq<char>>) -> Seq<char> {
    let head = seq!['(', '?', 'i', ')', '\\', 'A', '\\', 's', '*'] + escaped(username);
    match alias {
        Some(a) => head + seq!['|'] + escaped(a),
        None => head,
    }
}

/// What a line typed into the shell amounts to.
#[derive(Debug)]
pub enum ShellInput {
    /// An empty line: prompt again.
    Blank,
    /// `exit` or `quit`: end the session.
    Quit,
    /// A message for the robot.
    Message(IncomingMessage),
}

/// A chat service that runs in your shell.
#[derive(Clone, Debug)]
pub struct Shell {
    user: User,
}

impl Shell {
    /// The robot's user.
    pub closed spec fn spec_user(&self) -> User {
        self.user
    }

    /// Creates a new `Shell` with the given name for the robot.
    pub fn new(name: &str) -> (r: Self)
        ensures
            r.spec_user()@.id == "1"@,
            r.spec_user()@.username == Some(name@),
            r.spec_user()@.display_name is None,
    {
        Shell { user: User::new("1", Some(name), None) }
    }

    /// The robot's user.
    pub fn user(&self) -> (r: &User)
        ensures
            *r == self.spec_user(),
    {
        &self.user
    }

    /// The text of the pattern that finds a leading mention of the robot.
    pub fn mention_pattern_text(&self, alias: Option<&str>) -> (r: String)
        ensures
            r@ == mention_pattern_text(
                self.spec_user()@.effective_username(),
                match alias {
                    Some(a) => Some(a@),
                    None => None,
                },
            ),
    {
        let username = match self.user.username() {
            Some(u) => u,
            None => self.user.id(),
        };
        let mut text = String::new();
        text.append("(?i)\\A\\s*");
        let name = escape(username);
        text.append(name.as_str());
        proof {
            reveal_strlit("(?i)\\A\\s*");
            assert(text@ =~= seq!['(', '?', 'i', ')', '\\', 'A', '\\', 's', '*'] + escaped(
                username@,
            ));
        }
        match alias {
            Some(a) => {
                text.append("|");
                let quoted = escape(a);
                text.append(quoted.as_str());
                proof {
                    reveal_strlit("|");
                }
            },
            None => {},
        }
        text
    }

    /// Compiles the pattern that finds a leading mention of the robot.
    pub fn mention_pattern(&self, alias: Option<&str>) -> (r: Result<Pattern, RegexError>)
        ensures
            ({
                let text = mention_pattern_text(
                    self.spec_user()@.effective_username(),
                    match alias {
                        Some(a) => Some(a@),
                        None => None,
                    },
                );
                &&& r is Ok <==> regex_compiles(text)
                &&& r is Ok ==> r->Ok_0.spec_source() == text
            }),
    {
        let text = self.mention_pattern_text(alias);
        Pattern::new(text.as_str())
    }

    /// What a line typed into the shell amounts to: nothing on an empty line, the end of the
    /// session on `exit` or `quit`, and otherwise a direct message from the shell's user, whose
    /// leading mention of the robot ends at `mention_end`, or nowhere.
    pub fn interpret_line(&self, line: String, mention_end: Option<usize>) -> (r: ShellInput)
        requires
            mention_end is Some ==> is_char_boundary(utf8_of(line@), mention_end->0 as int),
        ensures
            line@.len() == 0 <==> r is Blank,
            (line@ == "exit"@ || line@ == "quit"@) <==> r is Quit,
            r is Message ==> ({
                let m = r->Message_0@;
                &&& m.body == line@
                &&& m.mention_offset == match mention_end {
                    Some(end) => end,
                    None => 0,
                }
                &&& m.source is User
                &&& m.source->User_0@.id == "1"@
                &&& m.source->User_0@.username == Some("Shell User"@)
                &&& m.source->User_0@.display_name is None
            }),
    {
        proof {
            reveal_strlit("exit");
            reveal_strlit("quit");
        }
        if line.as_str().is_empty() {
            return ShellInput::Blank;
        }
        let exit = "exit".to_owned();
        let quit = "quit".to_owned();
        if line == exit || line == quit {
            return ShellInput::Quit;
        }
        let offset = match mention_end {
            Some(end) => end,
            None => 0,
        };
        let user = User::new("1", Some("Shell User"), None);
        ShellInput::Message(IncomingMessage::new(Source::User(user), line, offset))
    }

    /// What a line typed into the shell amounts to, with the leading mention of the robot found
    /// by `mention`.
    pub fn read_line(&self, mention: &Pattern, line: String) -> (r: ShellInput)
        ensures
            line@.len() == 0 <==> r is Blank,
            (line@ == "exit"@ || line@ == "quit"@) <==> r is Quit,
            r is Message ==> ({
                let m = r->Message_0@;
                &&& m.body == line@
                &&& m.mention_offset == match regex_first_match_end(
                    mention.spec_source(),
                    line@,
                ) {
                    Some(end) => end,
                    None => 0,
                }
                &&& m.source is User
                &&& m.source->User_0@.id == "1"@
                &&& m.source->User_0@.username == Some("Shell User"@)
                &&& m.source->User_0@.display_name is None
            }),
    {
        let mention_end = mention.first_match_end(line.as_str());
        self.interpret_line(line, mention_end)
    }
}

impl Default for Shell {
    fn default() -> (r: Self)
        ensures
            r.spec_user()@.id == "1"@,
            r.spec_user()@.username == Some("Rustin"@),
            r.spec_user()@.display_name is None,
    {
        Shell::new("Rustin")
    }
}

} // verus!
