//! The ways in which handling one key press can end early.

use vstd::prelude::*;

verus! {

/// Why the session directory returned no session.
#[derive(Clone, Copy, Debug, PartialEq, Eq, Structural)]
pub enum DirectoryError {
    /// No listed session belongs to the process asked for.
    NotFound,
    /// The provider failed while the sessions were examined.
    ProviderError,
}

/// Why a key press changed nothing.
#[derive(Clone, Copy, Debug, PartialEq, Eq, Structural)]
pub enum VolumeError {
    /// No window owns keyboard focus.
    NoFocus,
    /// The focused process has no audio session.
    NoAudioSession,
    /// The focus or audio subsystem failed.
    ProviderError,
    /// A tuning call was given values that define no acceleration curve.
    InvalidParameter,
}

impl VolumeError {
    /// A short description for whoever reports the error.
    pub fn message(&self) -> (text: String)
        ensures
            text@ == self.message_text(),
    {
        match self {
            VolumeError::NoFocus => "no window currently has focus".to_owned(),
            VolumeError::NoAudioSession => "the focused application has no audio session".to_owned(),
            VolumeError::ProviderError => "the audio or focus provider failed".to_owned(),
            VolumeError::InvalidParameter => "invalid acceleration parameters".to_owned(),
        }
    }

    pub open spec fn message_text(&self) -> Seq<char> {
        match self {
            VolumeError::NoFocus => "no window currently has focus"@,
            VolumeError::NoAudioSession => "the focused application has no audio session"@,
            VolumeError::ProviderError => "the audio or focus provider failed"@,
            VolumeError::InvalidParameter => "invalid acceleration parameters"@,
        }
    }
}

} // verus!
