//! Exchanging transactions with a hardware wallet by QR codes: showing the
//! parts of a multi-part code one at a time, and collecting the parts
//! scanned until they decode to a signed transaction.
use vstd::prelude::*;
use crate::recovery::Fetched;
use crate::text::{concat, decimal, push_decimal};

verus! {

/// The parts of a code shown to the hardware wallet.
pub struct QrDisplayState {
    pub ur_parts: Vec<String>,
    /// Index of the part shown.
    pub current_part: usize,
    pub is_animating: bool,
    pub error: Option<String>,
}

impl QrDisplayState {
    /// Nothing to show.
    pub fn new() -> (s: Self)
        ensures
            s.ur_parts@.len() == 0,
            s.current_part == 0,
            !s.is_animating,
            s.error is None,
    {
        QrDisplayState { ur_parts: Vec::new(), current_part: 0, is_animating: false, error: None }
    }

    /// Shows the parts of a new code, from the first.
    pub fn show_parts(&mut self, parts: Vec<String>)
        ensures
            final(self).ur_parts@ == parts@,
            final(self).current_part == 0,
            final(self).is_animating == old(self).is_animating,
            final(self).error == old(self).error,
    {
        self.ur_parts = parts;
        self.current_part = 0;
    }

    /// "Part i of n" above the code.
    pub fn part_label(&self) -> (s: String)
        requires
            self.current_part < self.ur_parts@.len(),
        ensures
            s@ == "Part "@ + decimal(self.current_part as nat + 1) + " of "@ + decimal(self.ur_parts@.len()),
    {
        let n = self.ur_parts.len();
        let mut s = String::from_str("Part ");
        push_decimal(&mut s, (self.current_part + 1) as u64);
        s.append(" of ");
        push_decimal(&mut s, n as u64);
        s
    }

    /// "← Previous": the part before, if any.
    pub fn previous_part(&mut self)
        ensures
            final(self).current_part == (if old(self).current_part > 0 {
                old(self).current_part - 1
            } else {
                old(self).current_part as int
            }),
            final(self).ur_parts@ == old(self).ur_parts@,
    {
        if self.current_part > 0 {
            self.current_part = self.current_part - 1;
        }
    }

    /// "Next →": the part after, if any.
    pub fn next_part(&mut self)
        requires
            old(self).ur_parts@.len() > 0,
        ensures
            final(self).current_part == (if old(self).current_part < old(self).ur_parts@.len() - 1 {
                old(self).current_part + 1
            } else {
                old(self).current_part as int
            }),
            final(self).ur_parts@ == old(self).ur_parts@,
    {
        if self.current_part < self.ur_parts.len() - 1 {
            self.current_part = self.current_part + 1;
        }
    }

    /// The text of the part shown.
    pub fn current_ur(&self) -> (s: &String)
        requires
            self.current_part < self.ur_parts@.len(),
        ensures
            *s == self.ur_parts@[self.current_part as int],
    {
        &self.ur_parts[self.current_part]
    }
}

/// Collecting the parts of a code scanned from the hardware wallet.
pub struct QrScannerState {
    pub scanned_parts: Vec<String>,
    pub is_scanning: bool,
    pub error: Option<String>,
    pub success: bool,
    /// The signed transaction (PSBT, base64) once the parts decode.
    pub decoded_psbt: Option<String>,
    /// The image file chosen to scan, if any.
    pub selected_file: Option<String>,
    pub pending_file_selection: bool,
}

pub open spec fn opt_str(o: Option<String>) -> Option<Seq<char>> {
    match o {
        Some(s) => Some(s@),
        None => None,
    }
}

impl QrScannerState {
    /// Ready to scan, nothing scanned.
    pub fn new() -> (s: Self)
        ensures
            s.scanned_parts@.len() == 0,
            s.is_scanning,
            s.error is None,
            !s.success,
            s.decoded_psbt is None,
            s.selected_file is None,
            !s.pending_file_selection,
    {
        QrScannerState {
            scanned_parts: Vec::new(),
            is_scanning: true,
            error: None,
            success: false,
            decoded_psbt: None,
            selected_file: None,
            pending_file_selection: false,
        }
    }

    /// A part was read (typed, or from a file): it joins those scanned.
    /// Empty typed text is not a part. The answer is whether the parts
    /// should now be decoded.
    pub fn add_part(&mut self, part: String) -> (decode: bool)
        ensures
            decode == (part@.len() > 0),
            decode ==> final(self).scanned_parts@ == old(self).scanned_parts@.push(part),
            !decode ==> final(self).scanned_parts@ == old(self).scanned_parts@,
            final(self).success == old(self).success,
            final(self).error == old(self).error,
    {
        if part.unicode_len() == 0 {
            return false;
        }
        self.scanned_parts.push(part);
        true
    }

    /// Reading the chosen file failed.
    pub fn file_unreadable(&mut self, error: String)
        ensures
            opt_str(final(self).error) == Some(error@),
            final(self).scanned_parts@ == old(self).scanned_parts@,
            final(self).success == old(self).success,
    {
        self.error = Some(error);
    }

    /// What the wallet made of the parts scanned: the signed transaction, or
    /// why they do not decode.
    pub fn finish_decode(&mut self, decoded: Fetched<String>)
        ensures
            match decoded {
                Fetched::Ready(p) => opt_str(final(self).decoded_psbt) == Some(p@) && final(self).success
                    && !final(self).is_scanning,
                Fetched::Failed(e) => opt_str(final(self).error) == Some("Failed to decode UR: "@ + e@)
                    && final(self).success == old(self).success,
                Fetched::Unavailable => opt_str(final(self).error) == Some(
                    crate::recovery::unavailable_message(),
                ) && final(self).success == old(self).success,
            },
            final(self).scanned_parts@ == old(self).scanned_parts@,
    {
        match decoded {
            Fetched::Ready(p) => {
                self.decoded_psbt = Some(p);
                self.success = true;
                self.is_scanning = false;
            },
            Fetched::Failed(e) => {
                self.error = Some(concat("Failed to decode UR: ", e.as_str()));
            },
            Fetched::Unavailable => {
                self.error = Some(String::from_str("Vault not loaded or runtime not available"));
            },
        }
    }

    /// "Select Image File": a file dialog is due.
    pub fn request_file(&mut self)
        ensures
            final(self).pending_file_selection,
            final(self).selected_file == old(self).selected_file,
    {
        self.pending_file_selection = true;
    }

    /// The file dialog closed, with a file chosen or not.
    pub fn file_chosen(&mut self, path: Option<String>)
        ensures
            !final(self).pending_file_selection,
            path is Some ==> final(self).selected_file == path,
            path is None ==> final(self).selected_file == old(self).selected_file,
    {
        self.pending_file_selection = false;
        match path {
            Some(p) => {
                self.selected_file = Some(p);
            },
            None => {},
        }
    }
}

} // verus!
