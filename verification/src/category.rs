//! The kinds of media that the library keeps apart.

use vstd::prelude::*;

verus! {

/// A kind of media file. A file of no such kind is counted, never stored.
#[derive(Clone, Copy, Debug, PartialEq, Eq, Structural)]
pub enum MediaCategory {
    Audio,
    Image,
    Video,
}

/// The name of the folder that holds the files of a kind below a date folder.
pub open spec fn folder_name(category: MediaCategory) -> Seq<char> {
    match category {
        MediaCategory::Audio => seq!['A', 'u', 'd', 'i', 'o'],
        MediaCategory::Image => seq!['I', 'm', 'a', 'g', 'e', 's'],
        MediaCategory::Video => seq!['V', 'i', 'd', 'e', 'o', 's'],
    }
}

impl MediaCategory {
    /// The folder of this kind: `Audio`, `Images` or `Videos`.
    pub fn folder_name(&self) -> (name: &'static str)
        ensures
            name@ == folder_name(*self),
    {
        match self {
            MediaCategory::Audio => {
                proof {
                    reveal_strlit("Audio");
                }
                assert("Audio"@ =~= folder_name(MediaCategory::Audio));
                "Audio"
            },
            MediaCategory::Image => {
                proof {
                    reveal_strlit("Images");
                }
                assert("Images"@ =~= folder_name(MediaCategory::Image));
                "Images"
            },
            MediaCategory::Video => {
                proof {
                    reveal_strlit("Videos");
                }
                assert("Videos"@ =~= folder_name(MediaCategory::Video));
                "Videos"
            },
        }
    }
}

} // verus!
