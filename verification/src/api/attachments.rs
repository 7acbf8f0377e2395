//! Attachment parameter shapes, as plain data.

use vstd::prelude::*;

verus! {

/// Parameters for listing an issue's attachments.
#[derive(Debug)]
pub struct GetAttachmentsParams {
    /// Issue ID or key.
    pub issue_id_or_key: String,
}

/// Parameters for deleting an attachment.
#[derive(Debug)]
pub struct DeleteAttachmentParams {
    /// Attachment ID.
    pub attachment_id: String,
}

} // verus!
