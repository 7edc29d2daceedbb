//! The builder for a transfer on curl's `Easy` handle, whose callbacks may
//! borrow data that lives only as long as the transfer.
use vstd::prelude::*;

use std::io::SeekFrom;

use curl::easy::{Easy, InfoType, ReadError, SeekResult, Transfer, WriteError};

use crate::curl_api::{
    transfer_has_debug_callback, transfer_has_header_callback, transfer_has_progress_callback, transfer_has_read_callback,
    transfer_has_seek_callback, transfer_has_write_callback,
    set_debug_callback, set_header_callback, set_read_callback, set_seek_callback,
    set_write_callback,
};
use crate::errors::{one_failure_kept, report, BuildResult, Failures};

verus! {

/// The builder for `curl::easy::Transfer`.
///
/// It borrows the handle for `'easy`; the callbacks it installs may borrow
/// data for `'data`. Failures are kept and reported by `result`, as with
/// `EasyBuilder`.
pub struct TransferBuilder<'easy, 'data> {
    transfer: Transfer<'easy, 'data>,
    errors: Failures,
}

impl<'easy, 'data> View for TransferBuilder<'easy, 'data> {
    /// The result codes of the settings that failed so far, oldest first.
    type V = Seq<u32>;

    closed spec fn view(&self) -> Seq<u32> {
        self.errors@
    }
}

impl<'easy, 'data> TransferBuilder<'easy, 'data> {
    /// The transfer being configured.
    pub closed spec fn transfer(&self) -> Transfer<'easy, 'data> {
        self.transfer
    }

    /// Starts a transfer on `easy`, with no callbacks and no failures.
    pub fn new(easy: &'easy mut Easy) -> (r: TransferBuilder<'easy, 'data>)
        ensures
            r@ == Seq::<u32>::empty(),
            !transfer_has_write_callback(r.transfer()),
            !transfer_has_read_callback(r.transfer()),
            !transfer_has_seek_callback(r.transfer()),
            !transfer_has_debug_callback(r.transfer()),
            !transfer_has_header_callback(r.transfer()),
            !transfer_has_progress_callback(r.transfer()),
    {
        TransferBuilder { transfer: easy.transfer(), errors: Failures::new() }
    }

    /// Keeps the outcome of a setting made on the transfer: nothing if it
    /// succeeded, its result code if it failed.
    pub fn keep_outcome(&mut self, outcome: Result<(), curl::Error>) -> (r: &mut TransferBuilder<'easy, 'data>)
        ensures
            outcome is Ok ==> (*r)@ == old(self)@,
            outcome is Err ==> one_failure_kept(old(self)@, (*r)@),
            (*r).transfer() == old(self).transfer(),
            *final(self) == *final(r),
    {
        self.errors.note(outcome);
        self
    }

    /// The transfer being configured, to set what this builder has no
    /// method for; `keep_outcome` keeps what such a setting gives back.
    pub fn transfer_mut(&mut self) -> (r: &mut Transfer<'easy, 'data>)
        ensures
            *r == old(self).transfer(),
            final(self).transfer() == *final(r),
            final(self)@ == old(self)@,
    {
        &mut self.transfer
    }

    /// Installs the callback that receives downloaded data.
    pub fn write_function<F>(&mut self, f: F) -> (r: &mut TransferBuilder<'easy, 'data>)
        where
            F: FnMut(&[u8]) -> Result<usize, WriteError> + 'data,
        ensures
            (*r)@ == old(self)@,
            transfer_has_write_callback((*r).transfer()),
            transfer_has_read_callback((*r).transfer()) == transfer_has_read_callback(old(self).transfer()),
            transfer_has_seek_callback((*r).transfer()) == transfer_has_seek_callback(old(self).transfer()),
            transfer_has_debug_callback((*r).transfer()) == transfer_has_debug_callback(old(self).transfer()),
            transfer_has_header_callback((*r).transfer()) == transfer_has_header_callback(old(self).transfer()),
            transfer_has_progress_callback((*r).transfer()) == transfer_has_progress_callback(old(self).transfer()),
            *final(self) == *final(r),
    {
        let outcome = set_write_callback(&mut self.transfer, f);
        self.errors.note(outcome);
        self
    }

    /// Installs the callback that supplies data to upload.
    pub fn read_function<F>(&mut self, f: F) -> (r: &mut TransferBuilder<'easy, 'data>)
        where
            F: FnMut(&mut [u8]) -> Result<usize, ReadError> + 'data,
        ensures
            (*r)@ == old(self)@,
            transfer_has_read_callback((*r).transfer()),
            transfer_has_write_callback((*r).transfer()) == transfer_has_write_callback(old(self).transfer()),
            transfer_has_seek_callback((*r).transfer()) == transfer_has_seek_callback(old(self).transfer()),
            transfer_has_debug_callback((*r).transfer()) == transfer_has_debug_callback(old(self).transfer()),
            transfer_has_header_callback((*r).transfer()) == transfer_has_header_callback(old(self).transfer()),
            transfer_has_progress_callback((*r).transfer()) == transfer_has_progress_callback(old(self).transfer()),
            *final(self) == *final(r),
    {
        let outcome = set_read_callback(&mut self.transfer, f);
        self.errors.note(outcome);
        self
    }

    /// Installs the callback that seeks in the data to upload.
    pub fn seek_function<F>(&mut self, f: F) -> (r: &mut TransferBuilder<'easy, 'data>)
        where
            F: FnMut(SeekFrom) -> SeekResult + 'data,
        ensures
            (*r)@ == old(self)@,
            transfer_has_seek_callback((*r).transfer()),
            transfer_has_write_callback((*r).transfer()) == transfer_has_write_callback(old(self).transfer()),
            transfer_has_read_callback((*r).transfer()) == transfer_has_read_callback(old(self).transfer()),
            transfer_has_debug_callback((*r).transfer()) == transfer_has_debug_callback(old(self).transfer()),
            transfer_has_header_callback((*r).transfer()) == transfer_has_header_callback(old(self).transfer()),
            transfer_has_progress_callback((*r).transfer()) == transfer_has_progress_callback(old(self).transfer()),
            *final(self) == *final(r),
    {
        let outcome = set_seek_callback(&mut self.transfer, f);
        self.errors.note(outcome);
        self
    }

    /// Installs the callback that receives libcurl's debug messages.
    pub fn debug_function<F>(&mut self, f: F) -> (r: &mut TransferBuilder<'easy, 'data>)
        where
            F: FnMut(InfoType, &[u8]) + 'data,
        ensures
            (*r)@ == old(self)@,
            transfer_has_debug_callback((*r).transfer()),
            transfer_has_write_callback((*r).transfer()) == transfer_has_write_callback(old(self).transfer()),
            transfer_has_read_callback((*r).transfer()) == transfer_has_read_callback(old(self).transfer()),
            transfer_has_seek_callback((*r).transfer()) == transfer_has_seek_callback(old(self).transfer()),
            transfer_has_header_callback((*r).transfer()) == transfer_has_header_callback(old(self).transfer()),
            transfer_has_progress_callback((*r).transfer()) == transfer_has_progress_callback(old(self).transfer()),
            *final(self) == *final(r),
    {
        let outcome = set_debug_callback(&mut self.transfer, f);
        self.errors.note(outcome);
        self
    }

    /// Installs the callback that receives each response header.
    pub fn header_function<F>(&mut self, f: F) -> (r: &mut TransferBuilder<'easy, 'data>)
        where
            F: FnMut(&[u8]) -> bool + 'data,
        ensures
            (*r)@ == old(self)@,
            transfer_has_header_callback((*r).transfer()),
            transfer_has_write_callback((*r).transfer()) == transfer_has_write_callback(old(self).transfer()),
            transfer_has_read_callback((*r).transfer()) == transfer_has_read_callback(old(self).transfer()),
            transfer_has_seek_callback((*r).transfer()) == transfer_has_seek_callback(old(self).transfer()),
            transfer_has_debug_callback((*r).transfer()) == transfer_has_debug_callback(old(self).transfer()),
            transfer_has_progress_callback((*r).transfer()) == transfer_has_progress_callback(old(self).transfer()),
            *final(self) == *final(r),
    {
        let outcome = set_header_callback(&mut self.transfer, f);
        self.errors.note(outcome);
        self
    }

    /// Tells whether any setting has failed so far.
    pub fn has_errors(&self) -> (r: bool)
        ensures
            r == (self@.len() > 0),
    {
        !self.errors.is_empty()
    }

    /// Finishes the builder: the transfer if every setting succeeded, else
    /// an error whose text describes each failure on a line of its own.
    pub fn result(&mut self) -> (r: BuildResult<&mut Transfer<'easy, 'data>>)
        ensures
            r is Ok <==> old(self)@.len() == 0,
            r matches Ok(t) ==> *t == old(self).transfer() && final(self).transfer() == *final(t)
                && final(self)@ == old(self)@,
            r matches Err(e) ==> e.text() == report(old(self)@) && *final(self) == *old(self),
    {
        if self.errors.is_empty() {
            Ok(&mut self.transfer)
        } else {
            Err(self.errors.to_error())
        }
    }
}

} // verus!
