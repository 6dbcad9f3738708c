use vstd::prelude::*;
use crate::protocol::PlaySoundParameter;

verus! {

/// A sound requested by the game, with the handle of the voice engine's
/// playback once it started (0 before).
#[derive(Clone, Debug, PartialEq)]
pub struct Sound {
    pub file_name: String,
    pub is_loop: bool,
    pub handle: String,
    pub wave_handle: u64,
}

impl Sound {
    /// The sound that a play request names, not started yet.
    pub fn from_request(p: PlaySoundParameter) -> (r: Sound)
        ensures
            r.file_name == p.file_name,
            r.is_loop == p.is_loop,
            r.handle == p.handle,
            r.wave_handle == 0,
    {
        Sound { file_name: p.file_name, is_loop: p.is_loop, handle: p.handle, wave_handle: 0 }
    }
}

/// The directories, relative to the plugin directory, searched in order for a
/// sound file: the override directory, the sound pack's, then the default.
pub fn sound_search_dirs(sound_pack_name: &str) -> (r: Vec<String>)
    ensures
        r@.len() == 3,
        r@[0]@ == "override"@,
        r@[1]@ == sound_pack_name@,
        r@[2]@ == "default"@,
{
    let mut r: Vec<String> = Vec::new();
    r.push("override".to_owned());
    r.push(sound_pack_name.to_owned());
    r.push("default".to_owned());
    r
}

} // verus!
