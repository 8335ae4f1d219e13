//! Model of the document-picker delegate's state: the single URI buffer
//! that the picker's callbacks fill and that the dialogs poll.
use vstd::prelude::*;
use crate::file_dialog::FilePath;
use crate::file_dialog::URI_BUFFER_LEN;
use crate::file_dialog::bytes_as_chars;
use crate::file_dialog::u8_slice_to_string;

verus! {

broadcast use vstd::array::group_array_axioms;

/// State of the document-picker delegate: the last URI a picker callback
/// handed back. A fresh delegate starts out holding a zeroed buffer, so
/// it already reports an (all-zero) path before any pick completes.
pub struct UIDocPickerDelegate {
    last_uri: FilePath,
}

impl View for UIDocPickerDelegate {
    type V = Option<Seq<u8>>;

    closed spec fn view(&self) -> Option<Seq<u8>> {
        self.last_uri@
    }
}

impl UIDocPickerDelegate {
    /// A fresh delegate, its history a zeroed buffer.
    pub fn new() -> (r: Self)
        ensures
            r@ == Some(Seq::new(URI_BUFFER_LEN as nat, |_i: int| 0u8)),
    {
        let buf = [0u8; URI_BUFFER_LEN];
        proof {
            assert(buf@ =~= Seq::new(URI_BUFFER_LEN as nat, |_i: int| 0u8));
        }
        UIDocPickerDelegate { last_uri: FilePath(Some(buf)) }
    }

    /// The current URI history, as the dialogs poll it.
    pub fn get_uri_history(&self) -> (r: FilePath)
        ensures
            r@ == self@,
    {
        self.last_uri
    }

    /// Overwrites the history with a full buffer of path bytes.
    pub fn set_uri_history(&mut self, new_history: [u8; URI_BUFFER_LEN])
        ensures
            final(self)@ == Some(new_history@),
    {
        self.last_uri = FilePath(Some(new_history));
    }

    /// The last retrieved URI, decoded to text; nothing while no URI is
    /// recorded.
    pub fn report_uri_retrieved(&self) -> (r: Option<String>)
        ensures
            match self@ {
                Some(bytes) => r matches Some(s) && s@ == bytes_as_chars(bytes),
                None => r is None,
            },
    {
        match self.last_uri.0 {
            Some(h) => Some(u8_slice_to_string(h)),
            None => None,
        }
    }

    /// What a picker callback does with the path of a chosen document:
    /// a path whose byte encoding fills the buffer exactly is recorded;
    /// one of any other length is dropped and the history stands.
    pub fn record_picked_path(&mut self, path_bytes: &Vec<u8>)
        ensures
            path_bytes@.len() == URI_BUFFER_LEN ==> final(self)@ == Some(path_bytes@),
            path_bytes@.len() != URI_BUFFER_LEN ==> final(self)@ == old(self)@,
    {
        if path_bytes.len() == URI_BUFFER_LEN {
            let mut buf = [0u8; URI_BUFFER_LEN];
            let mut i: usize = 0;
            while i < URI_BUFFER_LEN
                invariant
                    i <= URI_BUFFER_LEN,
                    path_bytes@.len() == URI_BUFFER_LEN,
                    forall|j: int| 0 <= j < i ==> buf@[j] == path_bytes@[j],
                decreases URI_BUFFER_LEN - i,
            {
                buf[i] = path_bytes[i];
                i = i + 1;
            }
            proof {
                assert(buf@ =~= path_bytes@);
            }
            self.set_uri_history(buf);
        }
    }
}

} // verus!
