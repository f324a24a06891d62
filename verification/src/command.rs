//! The command that a peer asks for, and the reasons for which a payload is
//! not one.

use vstd::prelude::*;

verus! {

/// Why a payload is not a command.
#[derive(Clone, Copy, Debug, PartialEq, Eq, Structural)]
pub enum DecodeError {
    /// The payload is not JSON at all.
    Malformed,
    /// The payload is JSON, but it is no object with a non-empty string
    /// under `action`.
    MissingAction,
}

/// The mathematical value of a [`SceneCommand`].
pub struct CommandView {
    pub action: Seq<char>,
    pub scene_id: Option<Seq<char>>,
    pub fade_time: Option<u32>,
}

/// The mathematical value of a text that may be absent.
pub open spec fn text_view(text: Option<String>) -> Option<Seq<char>> {
    match text {
        Some(given) => Some(given@),
        None => None,
    }
}

/// One requested action: what to do, optionally to which scene, optionally
/// over how many milliseconds. The action is never empty.
#[derive(Debug, PartialEq, Eq)]
pub struct SceneCommand {
    action: String,
    scene_id: Option<String>,
    fade_time: Option<u32>,
}

impl View for SceneCommand {
    type V = CommandView;

    closed spec fn view(&self) -> CommandView {
        CommandView {
            action: self.action@,
            scene_id: text_view(self.scene_id),
            fade_time: self.fade_time,
        }
    }
}

impl Clone for SceneCommand {
    fn clone(&self) -> (copy: SceneCommand)
        ensures
            copy@ == self@,
    {
        proof {
            use_type_invariant(self);
        }
        SceneCommand {
            action: self.action.clone(),
            scene_id: match &self.scene_id {
                Some(id) => Some(id.clone()),
                None => None,
            },
            fade_time: self.fade_time,
        }
    }
}

/// The command that three readings of a payload amount to: the text under
/// `action`, the text under `scene_id` and the count under `fade_time`, each
/// `None` where the payload holds no such thing. A count beyond `u32::MAX`
/// is no duration, and leaves the fade time unset.
pub open spec fn command_of(
    action: Option<Seq<char>>,
    scene_id: Option<Seq<char>>,
    fade_time: Option<u64>,
) -> Result<CommandView, DecodeError> {
    match action {
        Some(name) if name.len() > 0 => Ok(
            CommandView {
                action: name,
                scene_id,
                fade_time: match fade_time {
                    Some(n) if n <= u32::MAX => Some(n as u32),
                    _ => None,
                },
            },
        ),
        _ => Err(DecodeError::MissingAction),
    }
}

/// The outcome of a decoding, with the command taken by its view.
pub open spec fn outcome_view(outcome: Result<SceneCommand, DecodeError>) -> Result<
    CommandView,
    DecodeError,
> {
    match outcome {
        Ok(command) => Ok(command@),
        Err(error) => Err(error),
    }
}

impl SceneCommand {
    #[verifier::type_invariant]
    spec fn action_is_named(self) -> bool {
        self.action@.len() > 0
    }

    /// Builds a command from its three attributes; an empty action is
    /// refused.
    pub fn new(action: String, scene_id: Option<String>, fade_time: Option<u32>) -> (r: Result<
        SceneCommand,
        DecodeError,
    >)
        ensures
            outcome_view(r) == if action@.len() > 0 {
                Ok::<CommandView, DecodeError>(
                    CommandView { action: action@, scene_id: text_view(scene_id), fade_time },
                )
            } else {
                Err::<CommandView, DecodeError>(DecodeError::MissingAction)
            },
    {
        if action.as_str().is_empty() {
            Err(DecodeError::MissingAction)
        } else {
            Ok(SceneCommand { action, scene_id, fade_time })
        }
    }

    /// Builds a command from what was read of a payload.
    pub fn from_members(
        action: Option<String>,
        scene_id: Option<String>,
        fade_time: Option<u64>,
    ) -> (r: Result<SceneCommand, DecodeError>)
        ensures
            outcome_view(r) == command_of(text_view(action), text_view(scene_id), fade_time),
    {
        let duration: Option<u32> = match fade_time {
            Some(n) => if n <= u32::MAX as u64 {
                Some(n as u32)
            } else {
                None
            },
            None => None,
        };
        match action {
            Some(name) => SceneCommand::new(name, scene_id, duration),
            None => Err(DecodeError::MissingAction),
        }
    }

    /// What to do. Never empty.
    pub fn action(&self) -> (r: &str)
        ensures
            r@ == self@.action,
            r@.len() > 0,
    {
        proof {
            use_type_invariant(self);
        }
        self.action.as_str()
    }

    /// The scene to act upon, where one was named.
    pub fn scene_id(&self) -> (r: Option<&str>)
        ensures
            match r {
                Some(id) => self@.scene_id == Some(id@),
                None => self@.scene_id is None,
            },
    {
        match &self.scene_id {
            Some(id) => Some(id.as_str()),
            None => None,
        }
    }

    /// The duration of the transition in milliseconds, where one was given.
    pub fn fade_time(&self) -> (r: Option<u32>)
        ensures
            r == self@.fade_time,
    {
        self.fade_time
    }
}

} // verus!
