use vstd::prelude::*;

use crate::error::AudioPlayerError;

verus! {

/// `s` without its leading and trailing whitespace.
pub uninterp spec fn trimmed_of(s: Seq<char>) -> Seq<char>;

/// Relies on str::trim to strip the whitespace around the file picker's output.
#[verifier::external_body]
fn trim<'a>(s: &'a str) -> (r: &'a str)
    ensures
        r@ == trimmed_of(s@),
{
    s.trim()
}

/// The file chosen through an outside file picker.
pub struct SelectFile {
    pub file_path: String,
}

impl SelectFile {
    /// Takes what the picker wrote as the chosen path, without surrounding whitespace. Nothing
    /// left after trimming means that no file was chosen.
    pub fn take_choice(&mut self, output: &str) -> (r: Result<(), AudioPlayerError>)
        ensures
            final(self).file_path@ == trimmed_of(output@),
            r is Ok <==> trimmed_of(output@).len() > 0,
            r is Err ==> r == Err::<(), AudioPlayerError>(AudioPlayerError::NoFileSelected),
    {
        let chosen = trim(output);
        self.file_path = chosen.to_owned();
        if chosen.is_empty() {
            Err(AudioPlayerError::NoFileSelected)
        } else {
            Ok(())
        }
    }
}

} // verus!
