//! The errors each operation can fail with, the HTTP status each is answered
//! with, and how the errors of a lower layer become those of the operation
//! that called it. Every variant carries the message the caller is shown.
use vstd::prelude::*;
use vstd::std_specs::convert::FromSpecImpl;

verus! {

/// What a single inventory statement, or a rule checked alongside one, can fail with.
#[derive(Debug)]
pub enum InventoryItemDatabaseError {
    Validation(String),
    NotFound(String),
    Conflict(String),
    Unexpected(String),
}

impl InventoryItemDatabaseError {
    /// The HTTP status this error is answered with.
    pub open spec fn spec_status_code(&self) -> u16 {
        match self {
            InventoryItemDatabaseError::Validation(_) => 400,
            InventoryItemDatabaseError::NotFound(_) => 404,
            InventoryItemDatabaseError::Conflict(_) => 409,
            InventoryItemDatabaseError::Unexpected(_) => 500,
        }
    }

    /// The message this error is shown with.
    pub open spec fn spec_message(&self) -> Seq<char> {
        match self {
            InventoryItemDatabaseError::Validation(message) => message@,
            InventoryItemDatabaseError::NotFound(message) => message@,
            InventoryItemDatabaseError::Conflict(message) => message@,
            InventoryItemDatabaseError::Unexpected(message) => message@,
        }
    }

    pub fn status_code(&self) -> (code: u16)
        ensures
            code == self.spec_status_code(),
    {
        match self {
            InventoryItemDatabaseError::Validation(_) => 400,
            InventoryItemDatabaseError::NotFound(_) => 404,
            InventoryItemDatabaseError::Conflict(_) => 409,
            InventoryItemDatabaseError::Unexpected(_) => 500,
        }
    }

    pub fn message(&self) -> (message: &String)
        ensures
            message@ == self.spec_message(),
    {
        match self {
            InventoryItemDatabaseError::Validation(message) => message,
            InventoryItemDatabaseError::NotFound(message) => message,
            InventoryItemDatabaseError::Conflict(message) => message,
            InventoryItemDatabaseError::Unexpected(message) => message,
        }
    }
}

/// What a single federation statement can fail with.
#[derive(Debug)]
pub enum FederationDatabaseError {
    Validation(String),
    Conflict(String),
    Unexpected(String),
}

impl FederationDatabaseError {
    /// The HTTP status this error is answered with.
    pub open spec fn spec_status_code(&self) -> u16 {
        match self {
            FederationDatabaseError::Validation(_) => 400,
            FederationDatabaseError::Conflict(_) => 409,
            FederationDatabaseError::Unexpected(_) => 500,
        }
    }

    /// The message this error is shown with.
    pub open spec fn spec_message(&self) -> Seq<char> {
        match self {
            FederationDatabaseError::Validation(message) => message@,
            FederationDatabaseError::Conflict(message) => message@,
            FederationDatabaseError::Unexpected(message) => message@,
        }
    }

    pub fn status_code(&self) -> (code: u16)
        ensures
            code == self.spec_status_code(),
    {
        match self {
            FederationDatabaseError::Validation(_) => 400,
            FederationDatabaseError::Conflict(_) => 409,
            FederationDatabaseError::Unexpected(_) => 500,
        }
    }

    pub fn message(&self) -> (message: &String)
        ensures
            message@ == self.spec_message(),
    {
        match self {
            FederationDatabaseError::Validation(message) => message,
            FederationDatabaseError::Conflict(message) => message,
            FederationDatabaseError::Unexpected(message) => message,
        }
    }
}

/// What can go wrong proving an inbound federation request is genuine.
#[derive(Debug)]
pub enum FederationSecurityError {
    Unauthorized(String),
    Forbidden(String),
    Unexpected(String),
}

impl FederationSecurityError {
    /// The HTTP status this error is answered with.
    pub open spec fn spec_status_code(&self) -> u16 {
        match self {
            FederationSecurityError::Unauthorized(_) => 401,
            FederationSecurityError::Forbidden(_) => 403,
            FederationSecurityError::Unexpected(_) => 500,
        }
    }

    /// The message this error is shown with.
    pub open spec fn spec_message(&self) -> Seq<char> {
        match self {
            FederationSecurityError::Unauthorized(message) => message@,
            FederationSecurityError::Forbidden(message) => message@,
            FederationSecurityError::Unexpected(message) => message@,
        }
    }

    pub fn status_code(&self) -> (code: u16)
        ensures
            code == self.spec_status_code(),
    {
        match self {
            FederationSecurityError::Unauthorized(_) => 401,
            FederationSecurityError::Forbidden(_) => 403,
            FederationSecurityError::Unexpected(_) => 500,
        }
    }

    pub fn message(&self) -> (message: &String)
        ensures
            message@ == self.spec_message(),
    {
        match self {
            FederationSecurityError::Unauthorized(message) => message,
            FederationSecurityError::Forbidden(message) => message,
            FederationSecurityError::Unexpected(message) => message,
        }
    }
}

/// What reading the public view of a laboratory can fail with.
#[derive(Debug)]
pub enum PublicDataError {
    Validation(String),
    NotFound(String),
    Unexpected(String),
}

impl PublicDataError {
    /// The HTTP status this error is answered with.
    pub open spec fn spec_status_code(&self) -> u16 {
        match self {
            PublicDataError::Validation(_) => 400,
            PublicDataError::NotFound(_) => 404,
            PublicDataError::Unexpected(_) => 500,
        }
    }

    /// The message this error is shown with.
    pub open spec fn spec_message(&self) -> Seq<char> {
        match self {
            PublicDataError::Validation(message) => message@,
            PublicDataError::NotFound(message) => message@,
            PublicDataError::Unexpected(message) => message@,
        }
    }

    pub fn status_code(&self) -> (code: u16)
        ensures
            code == self.spec_status_code(),
    {
        match self {
            PublicDataError::Validation(_) => 400,
            PublicDataError::NotFound(_) => 404,
            PublicDataError::Unexpected(_) => 500,
        }
    }

    pub fn message(&self) -> (message: &String)
        ensures
            message@ == self.spec_message(),
    {
        match self {
            PublicDataError::Validation(message) => message,
            PublicDataError::NotFound(message) => message,
            PublicDataError::Unexpected(message) => message,
        }
    }
}

/// What a borrow request operation can fail with.
#[derive(Debug)]
pub enum BorrowRequestError {
    ValidationError(String),
    Forbidden(String),
    NotFound(String),
    ConflictError(String),
    UnexpectedError(String),
}

impl BorrowRequestError {
    /// The HTTP status this error is answered with.
    pub open spec fn spec_status_code(&self) -> u16 {
        match self {
            BorrowRequestError::ValidationError(_) => 400,
            BorrowRequestError::Forbidden(_) => 403,
            BorrowRequestError::NotFound(_) => 404,
            BorrowRequestError::ConflictError(_) => 409,
            BorrowRequestError::UnexpectedError(_) => 500,
        }
    }

    /// The message this error is shown with.
    pub open spec fn spec_message(&self) -> Seq<char> {
        match self {
            BorrowRequestError::ValidationError(message) => message@,
            BorrowRequestError::Forbidden(message) => message@,
            BorrowRequestError::NotFound(message) => message@,
            BorrowRequestError::ConflictError(message) => message@,
            BorrowRequestError::UnexpectedError(message) => message@,
        }
    }

    pub fn status_code(&self) -> (code: u16)
        ensures
            code == self.spec_status_code(),
    {
        match self {
            BorrowRequestError::ValidationError(_) => 400,
            BorrowRequestError::Forbidden(_) => 403,
            BorrowRequestError::NotFound(_) => 404,
            BorrowRequestError::ConflictError(_) => 409,
            BorrowRequestError::UnexpectedError(_) => 500,
        }
    }

    pub fn message(&self) -> (message: &String)
        ensures
            message@ == self.spec_message(),
    {
        match self {
            BorrowRequestError::ValidationError(message) => message,
            BorrowRequestError::Forbidden(message) => message,
            BorrowRequestError::NotFound(message) => message,
            BorrowRequestError::ConflictError(message) => message,
            BorrowRequestError::UnexpectedError(message) => message,
        }
    }
}

/// What assigning uploaded files as attachments can fail with.
#[derive(Debug)]
pub enum AssignAttachmentError {
    ValidationError(String),
    Forbidden(String),
    NotFound(String),
    ConflictError(String),
    UnexpectedError(String),
}

impl AssignAttachmentError {
    /// The HTTP status this error is answered with.
    pub open spec fn spec_status_code(&self) -> u16 {
        match self {
            AssignAttachmentError::ValidationError(_) => 400,
            AssignAttachmentError::Forbidden(_) => 403,
            AssignAttachmentError::NotFound(_) => 404,
            AssignAttachmentError::ConflictError(_) => 409,
            AssignAttachmentError::UnexpectedError(_) => 500,
        }
    }

    /// The message this error is shown with.
    pub open spec fn spec_message(&self) -> Seq<char> {
        match self {
            AssignAttachmentError::ValidationError(message) => message@,
            AssignAttachmentError::Forbidden(message) => message@,
            AssignAttachmentError::NotFound(message) => message@,
            AssignAttachmentError::ConflictError(message) => message@,
            AssignAttachmentError::UnexpectedError(message) => message@,
        }
    }

    pub fn status_code(&self) -> (code: u16)
        ensures
            code == self.spec_status_code(),
    {
        match self {
            AssignAttachmentError::ValidationError(_) => 400,
            AssignAttachmentError::Forbidden(_) => 403,
            AssignAttachmentError::NotFound(_) => 404,
            AssignAttachmentError::ConflictError(_) => 409,
            AssignAttachmentError::UnexpectedError(_) => 500,
        }
    }

    pub fn message(&self) -> (message: &String)
        ensures
            message@ == self.spec_message(),
    {
        match self {
            AssignAttachmentError::ValidationError(message) => message,
            AssignAttachmentError::Forbidden(message) => message,
            AssignAttachmentError::NotFound(message) => message,
            AssignAttachmentError::ConflictError(message) => message,
            AssignAttachmentError::UnexpectedError(message) => message,
        }
    }
}

/// What storing a new user can fail with.
#[derive(Debug)]
pub enum UserDatabaseError {
    Validation(String),
    Conflict(String),
    Unexpected(String),
}

impl UserDatabaseError {
    /// The HTTP status this error is answered with.
    pub open spec fn spec_status_code(&self) -> u16 {
        match self {
            UserDatabaseError::Validation(_) => 400,
            UserDatabaseError::Conflict(_) => 409,
            UserDatabaseError::Unexpected(_) => 500,
        }
    }

    /// The message this error is shown with.
    pub open spec fn spec_message(&self) -> Seq<char> {
        match self {
            UserDatabaseError::Validation(message) => message@,
            UserDatabaseError::Conflict(message) => message@,
            UserDatabaseError::Unexpected(message) => message@,
        }
    }

    pub fn status_code(&self) -> (code: u16)
        ensures
            code == self.spec_status_code(),
    {
        match self {
            UserDatabaseError::Validation(_) => 400,
            UserDatabaseError::Conflict(_) => 409,
            UserDatabaseError::Unexpected(_) => 500,
        }
    }

    pub fn message(&self) -> (message: &String)
        ensures
            message@ == self.spec_message(),
    {
        match self {
            UserDatabaseError::Validation(message) => message,
            UserDatabaseError::Conflict(message) => message,
            UserDatabaseError::Unexpected(message) => message,
        }
    }
}

/// What reading the parameter filters of a listing can fail with.
#[derive(Debug)]
pub enum ParameterFilterError {
    Validation(String),
    Unexpected(String),
}

impl ParameterFilterError {
    /// The HTTP status this error is answered with.
    pub open spec fn spec_status_code(&self) -> u16 {
        match self {
            ParameterFilterError::Validation(_) => 400,
            ParameterFilterError::Unexpected(_) => 500,
        }
    }

    /// The message this error is shown with.
    pub open spec fn spec_message(&self) -> Seq<char> {
        match self {
            ParameterFilterError::Validation(message) => message@,
            ParameterFilterError::Unexpected(message) => message@,
        }
    }

    pub fn status_code(&self) -> (code: u16)
        ensures
            code == self.spec_status_code(),
    {
        match self {
            ParameterFilterError::Validation(_) => 400,
            ParameterFilterError::Unexpected(_) => 500,
        }
    }

    pub fn message(&self) -> (message: &String)
        ensures
            message@ == self.spec_message(),
    {
        match self {
            ParameterFilterError::Validation(message) => message,
            ParameterFilterError::Unexpected(message) => message,
        }
    }
}

/// What listing the inventory items of a laboratory can fail with.
#[derive(Debug)]
pub enum InventoryItemError {
    ValidationError(String),
    UnexpectedError(String),
}

impl InventoryItemError {
    /// The HTTP status this error is answered with.
    pub open spec fn spec_status_code(&self) -> u16 {
        match self {
            InventoryItemError::ValidationError(_) => 400,
            InventoryItemError::UnexpectedError(_) => 500,
        }
    }

    /// The message this error is shown with.
    pub open spec fn spec_message(&self) -> Seq<char> {
        match self {
            InventoryItemError::ValidationError(message) => message@,
            InventoryItemError::UnexpectedError(message) => message@,
        }
    }

    pub fn status_code(&self) -> (code: u16)
        ensures
            code == self.spec_status_code(),
    {
        match self {
            InventoryItemError::ValidationError(_) => 400,
            InventoryItemError::UnexpectedError(_) => 500,
        }
    }

    pub fn message(&self) -> (message: &String)
        ensures
            message@ == self.spec_message(),
    {
        match self {
            InventoryItemError::ValidationError(message) => message,
            InventoryItemError::UnexpectedError(message) => message,
        }
    }
}

/// Failures of accepting a federation pairing.
#[derive(Debug)]
pub enum AcceptPairingError {
    ValidationError(String),
    Forbidden(String),
    ConflictError(String),
    UnexpectedError(String),
}

impl AcceptPairingError {
    /// The HTTP status this error is answered with.
    pub open spec fn spec_status_code(&self) -> u16 {
        match self {
            AcceptPairingError::ValidationError(_) => 400,
            AcceptPairingError::Forbidden(_) => 403,
            AcceptPairingError::ConflictError(_) => 409,
            AcceptPairingError::UnexpectedError(_) => 500,
        }
    }

    /// The message this error is shown with.
    pub open spec fn spec_message(&self) -> Seq<char> {
        match self {
            AcceptPairingError::ValidationError(message) => message@,
            AcceptPairingError::Forbidden(message) => message@,
            AcceptPairingError::ConflictError(message) => message@,
            AcceptPairingError::UnexpectedError(message) => message@,
        }
    }

    pub fn status_code(&self) -> (code: u16)
        ensures
            code == self.spec_status_code(),
    {
        match self {
            AcceptPairingError::ValidationError(_) => 400,
            AcceptPairingError::Forbidden(_) => 403,
            AcceptPairingError::ConflictError(_) => 409,
            AcceptPairingError::UnexpectedError(_) => 500,
        }
    }

    pub fn message(&self) -> (message: &String)
        ensures
            message@ == self.spec_message(),
    {
        match self {
            AcceptPairingError::ValidationError(message) => message,
            AcceptPairingError::Forbidden(message) => message,
            AcceptPairingError::ConflictError(message) => message,
            AcceptPairingError::UnexpectedError(message) => message,
        }
    }
}

/// Failures of creating a federation pairing code.
#[derive(Debug)]
pub enum CreatePairingCodeError {
    ValidationError(String),
    Forbidden(String),
    ConflictError(String),
    UnexpectedError(String),
}

impl CreatePairingCodeError {
    /// The HTTP status this error is answered with.
    pub open spec fn spec_status_code(&self) -> u16 {
        match self {
            CreatePairingCodeError::ValidationError(_) => 400,
            CreatePairingCodeError::Forbidden(_) => 403,
            CreatePairingCodeError::ConflictError(_) => 409,
            CreatePairingCodeError::UnexpectedError(_) => 500,
        }
    }

    /// The message this error is shown with.
    pub open spec fn spec_message(&self) -> Seq<char> {
        match self {
            CreatePairingCodeError::ValidationError(message) => message@,
            CreatePairingCodeError::Forbidden(message) => message@,
            CreatePairingCodeError::ConflictError(message) => message@,
            CreatePairingCodeError::UnexpectedError(message) => message@,
        }
    }

    pub fn status_code(&self) -> (code: u16)
        ensures
            code == self.spec_status_code(),
    {
        match self {
            CreatePairingCodeError::ValidationError(_) => 400,
            CreatePairingCodeError::Forbidden(_) => 403,
            CreatePairingCodeError::ConflictError(_) => 409,
            CreatePairingCodeError::UnexpectedError(_) => 500,
        }
    }

    pub fn message(&self) -> (message: &String)
        ensures
            message@ == self.spec_message(),
    {
        match self {
            CreatePairingCodeError::ValidationError(message) => message,
            CreatePairingCodeError::Forbidden(message) => message,
            CreatePairingCodeError::ConflictError(message) => message,
            CreatePairingCodeError::UnexpectedError(message) => message,
        }
    }
}

/// Failures of creating a federation trust with a remote node.
#[derive(Debug)]
pub enum CreateTrustError {
    ValidationError(String),
    Forbidden(String),
    ConflictError(String),
    BadGateway(String),
    UnexpectedError(String),
}

impl CreateTrustError {
    /// The HTTP status this error is answered with.
    pub open spec fn spec_status_code(&self) -> u16 {
        match self {
            CreateTrustError::ValidationError(_) => 400,
            CreateTrustError::Forbidden(_) => 403,
            CreateTrustError::ConflictError(_) => 409,
            CreateTrustError::BadGateway(_) => 502,
            CreateTrustError::UnexpectedError(_) => 500,
        }
    }

    /// The message this error is shown with.
    pub open spec fn spec_message(&self) -> Seq<char> {
        match self {
            CreateTrustError::ValidationError(message) => message@,
            CreateTrustError::Forbidden(message) => message@,
            CreateTrustError::ConflictError(message) => message@,
            CreateTrustError::BadGateway(message) => message@,
            CreateTrustError::UnexpectedError(message) => message@,
        }
    }

    pub fn status_code(&self) -> (code: u16)
        ensures
            code == self.spec_status_code(),
    {
        match self {
            CreateTrustError::ValidationError(_) => 400,
            CreateTrustError::Forbidden(_) => 403,
            CreateTrustError::ConflictError(_) => 409,
            CreateTrustError::BadGateway(_) => 502,
            CreateTrustError::UnexpectedError(_) => 500,
        }
    }

    pub fn message(&self) -> (message: &String)
        ensures
            message@ == self.spec_message(),
    {
        match self {
            CreateTrustError::ValidationError(message) => message,
            CreateTrustError::Forbidden(message) => message,
            CreateTrustError::ConflictError(message) => message,
            CreateTrustError::BadGateway(message) => message,
            CreateTrustError::UnexpectedError(message) => message,
        }
    }
}

/// Failures of serving a request signed by a federation partner.
#[derive(Debug)]
pub enum InboundFederationError {
    ValidationError(String),
    Unauthorized(String),
    Forbidden(String),
    NotFound(String),
    ConflictError(String),
    UnexpectedError(String),
}

impl InboundFederationError {
    /// The HTTP status this error is answered with.
    pub open spec fn spec_status_code(&self) -> u16 {
        match self {
            InboundFederationError::ValidationError(_) => 400,
            InboundFederationError::Unauthorized(_) => 401,
            InboundFederationError::Forbidden(_) => 403,
            InboundFederationError::NotFound(_) => 404,
            InboundFederationError::ConflictError(_) => 409,
            InboundFederationError::UnexpectedError(_) => 500,
        }
    }

    /// The message this error is shown with.
    pub open spec fn spec_message(&self) -> Seq<char> {
        match self {
            InboundFederationError::ValidationError(message) => message@,
            InboundFederationError::Unauthorized(message) => message@,
            InboundFederationError::Forbidden(message) => message@,
            InboundFederationError::NotFound(message) => message@,
            InboundFederationError::ConflictError(message) => message@,
            InboundFederationError::UnexpectedError(message) => message@,
        }
    }

    pub fn status_code(&self) -> (code: u16)
        ensures
            code == self.spec_status_code(),
    {
        match self {
            InboundFederationError::ValidationError(_) => 400,
            InboundFederationError::Unauthorized(_) => 401,
            InboundFederationError::Forbidden(_) => 403,
            InboundFederationError::NotFound(_) => 404,
            InboundFederationError::ConflictError(_) => 409,
            InboundFederationError::UnexpectedError(_) => 500,
        }
    }

    pub fn message(&self) -> (message: &String)
        ensures
            message@ == self.spec_message(),
    {
        match self {
            InboundFederationError::ValidationError(message) => message,
            InboundFederationError::Unauthorized(message) => message,
            InboundFederationError::Forbidden(message) => message,
            InboundFederationError::NotFound(message) => message,
            InboundFederationError::ConflictError(message) => message,
            InboundFederationError::UnexpectedError(message) => message,
        }
    }
}

/// Failures of reporting this deployment's identity.
#[derive(Debug)]
pub enum InstanceIdentityError {
    UnexpectedError(String),
}

impl InstanceIdentityError {
    /// The HTTP status this error is answered with.
    pub open spec fn spec_status_code(&self) -> u16 {
        match self {
            InstanceIdentityError::UnexpectedError(_) => 500,
        }
    }

    /// The message this error is shown with.
    pub open spec fn spec_message(&self) -> Seq<char> {
        match self {
            InstanceIdentityError::UnexpectedError(message) => message@,
        }
    }

    pub fn status_code(&self) -> (code: u16)
        ensures
            code == self.spec_status_code(),
    {
        match self {
            InstanceIdentityError::UnexpectedError(_) => 500,
        }
    }

    pub fn message(&self) -> (message: &String)
        ensures
            message@ == self.spec_message(),
    {
        match self {
            InstanceIdentityError::UnexpectedError(message) => message,
        }
    }
}

/// Failures of listing federation guest links.
#[derive(Debug)]
pub enum ListGuestLinksError {
    Forbidden(String),
    UnexpectedError(String),
}

impl ListGuestLinksError {
    /// The HTTP status this error is answered with.
    pub open spec fn spec_status_code(&self) -> u16 {
        match self {
            ListGuestLinksError::Forbidden(_) => 403,
            ListGuestLinksError::UnexpectedError(_) => 500,
        }
    }

    /// The message this error is shown with.
    pub open spec fn spec_message(&self) -> Seq<char> {
        match self {
            ListGuestLinksError::Forbidden(message) => message@,
            ListGuestLinksError::UnexpectedError(message) => message@,
        }
    }

    pub fn status_code(&self) -> (code: u16)
        ensures
            code == self.spec_status_code(),
    {
        match self {
            ListGuestLinksError::Forbidden(_) => 403,
            ListGuestLinksError::UnexpectedError(_) => 500,
        }
    }

    pub fn message(&self) -> (message: &String)
        ensures
            message@ == self.spec_message(),
    {
        match self {
            ListGuestLinksError::Forbidden(message) => message,
            ListGuestLinksError::UnexpectedError(message) => message,
        }
    }
}

/// Failures of listing federation trusts.
#[derive(Debug)]
pub enum ListTrustsError {
    Forbidden(String),
    UnexpectedError(String),
}

impl ListTrustsError {
    /// The HTTP status this error is answered with.
    pub open spec fn spec_status_code(&self) -> u16 {
        match self {
            ListTrustsError::Forbidden(_) => 403,
            ListTrustsError::UnexpectedError(_) => 500,
        }
    }

    /// The message this error is shown with.
    pub open spec fn spec_message(&self) -> Seq<char> {
        match self {
            ListTrustsError::Forbidden(message) => message@,
            ListTrustsError::UnexpectedError(message) => message@,
        }
    }

    pub fn status_code(&self) -> (code: u16)
        ensures
            code == self.spec_status_code(),
    {
        match self {
            ListTrustsError::Forbidden(_) => 403,
            ListTrustsError::UnexpectedError(_) => 500,
        }
    }

    pub fn message(&self) -> (message: &String)
        ensures
            message@ == self.spec_message(),
    {
        match self {
            ListTrustsError::Forbidden(message) => message,
            ListTrustsError::UnexpectedError(message) => message,
        }
    }
}

/// Failures of pointing a federation guest link at another account.
#[derive(Debug)]
pub enum MergeGuestLinkError {
    ValidationError(String),
    Forbidden(String),
    NotFound(String),
    ConflictError(String),
    UnexpectedError(String),
}

impl MergeGuestLinkError {
    /// The HTTP status this error is answered with.
    pub open spec fn spec_status_code(&self) -> u16 {
        match self {
            MergeGuestLinkError::ValidationError(_) => 400,
            MergeGuestLinkError::Forbidden(_) => 403,
            MergeGuestLinkError::NotFound(_) => 404,
            MergeGuestLinkError::ConflictError(_) => 409,
            MergeGuestLinkError::UnexpectedError(_) => 500,
        }
    }

    /// The message this error is shown with.
    pub open spec fn spec_message(&self) -> Seq<char> {
        match self {
            MergeGuestLinkError::ValidationError(message) => message@,
            MergeGuestLinkError::Forbidden(message) => message@,
            MergeGuestLinkError::NotFound(message) => message@,
            MergeGuestLinkError::ConflictError(message) => message@,
            MergeGuestLinkError::UnexpectedError(message) => message@,
        }
    }

    pub fn status_code(&self) -> (code: u16)
        ensures
            code == self.spec_status_code(),
    {
        match self {
            MergeGuestLinkError::ValidationError(_) => 400,
            MergeGuestLinkError::Forbidden(_) => 403,
            MergeGuestLinkError::NotFound(_) => 404,
            MergeGuestLinkError::ConflictError(_) => 409,
            MergeGuestLinkError::UnexpectedError(_) => 500,
        }
    }

    pub fn message(&self) -> (message: &String)
        ensures
            message@ == self.spec_message(),
    {
        match self {
            MergeGuestLinkError::ValidationError(message) => message,
            MergeGuestLinkError::Forbidden(message) => message,
            MergeGuestLinkError::NotFound(message) => message,
            MergeGuestLinkError::ConflictError(message) => message,
            MergeGuestLinkError::UnexpectedError(message) => message,
        }
    }
}

/// Failures of relaying a request to a federation partner.
#[derive(Debug)]
pub enum ProxyFederationError {
    ValidationError(String),
    Forbidden(String),
    NotFound(String),
    BadGateway(String),
    UnexpectedError(String),
}

impl ProxyFederationError {
    /// The HTTP status this error is answered with.
    pub open spec fn spec_status_code(&self) -> u16 {
        match self {
            ProxyFederationError::ValidationError(_) => 400,
            ProxyFederationError::Forbidden(_) => 403,
            ProxyFederationError::NotFound(_) => 404,
            ProxyFederationError::BadGateway(_) => 502,
            ProxyFederationError::UnexpectedError(_) => 500,
        }
    }

    /// The message this error is shown with.
    pub open spec fn spec_message(&self) -> Seq<char> {
        match self {
            ProxyFederationError::ValidationError(message) => message@,
            ProxyFederationError::Forbidden(message) => message@,
            ProxyFederationError::NotFound(message) => message@,
            ProxyFederationError::BadGateway(message) => message@,
            ProxyFederationError::UnexpectedError(message) => message@,
        }
    }

    pub fn status_code(&self) -> (code: u16)
        ensures
            code == self.spec_status_code(),
    {
        match self {
            ProxyFederationError::ValidationError(_) => 400,
            ProxyFederationError::Forbidden(_) => 403,
            ProxyFederationError::NotFound(_) => 404,
            ProxyFederationError::BadGateway(_) => 502,
            ProxyFederationError::UnexpectedError(_) => 500,
        }
    }

    pub fn message(&self) -> (message: &String)
        ensures
            message@ == self.spec_message(),
    {
        match self {
            ProxyFederationError::ValidationError(message) => message,
            ProxyFederationError::Forbidden(message) => message,
            ProxyFederationError::NotFound(message) => message,
            ProxyFederationError::BadGateway(message) => message,
            ProxyFederationError::UnexpectedError(message) => message,
        }
    }
}

/// Failures of revoking a federation trust.
#[derive(Debug)]
pub enum RevokeTrustError {
    ValidationError(String),
    Forbidden(String),
    NotFound(String),
    ConflictError(String),
    UnexpectedError(String),
}

impl RevokeTrustError {
    /// The HTTP status this error is answered with.
    pub open spec fn spec_status_code(&self) -> u16 {
        match self {
            RevokeTrustError::ValidationError(_) => 400,
            RevokeTrustError::Forbidden(_) => 403,
            RevokeTrustError::NotFound(_) => 404,
            RevokeTrustError::ConflictError(_) => 409,
            RevokeTrustError::UnexpectedError(_) => 500,
        }
    }

    /// The message this error is shown with.
    pub open spec fn spec_message(&self) -> Seq<char> {
        match self {
            RevokeTrustError::ValidationError(message) => message@,
            RevokeTrustError::Forbidden(message) => message@,
            RevokeTrustError::NotFound(message) => message@,
            RevokeTrustError::ConflictError(message) => message@,
            RevokeTrustError::UnexpectedError(message) => message@,
        }
    }

    pub fn status_code(&self) -> (code: u16)
        ensures
            code == self.spec_status_code(),
    {
        match self {
            RevokeTrustError::ValidationError(_) => 400,
            RevokeTrustError::Forbidden(_) => 403,
            RevokeTrustError::NotFound(_) => 404,
            RevokeTrustError::ConflictError(_) => 409,
            RevokeTrustError::UnexpectedError(_) => 500,
        }
    }

    pub fn message(&self) -> (message: &String)
        ensures
            message@ == self.spec_message(),
    {
        match self {
            RevokeTrustError::ValidationError(message) => message,
            RevokeTrustError::Forbidden(message) => message,
            RevokeTrustError::NotFound(message) => message,
            RevokeTrustError::ConflictError(message) => message,
            RevokeTrustError::UnexpectedError(message) => message,
        }
    }
}

/// Failures of spending a file upload.
#[derive(Debug)]
pub enum ConsumeFileUploadError {
    ValidationError(String),
    NotFound(String),
    ConflictError(String),
    UnexpectedError(String),
}

impl ConsumeFileUploadError {
    /// The HTTP status this error is answered with.
    pub open spec fn spec_status_code(&self) -> u16 {
        match self {
            ConsumeFileUploadError::ValidationError(_) => 400,
            ConsumeFileUploadError::NotFound(_) => 404,
            ConsumeFileUploadError::ConflictError(_) => 409,
            ConsumeFileUploadError::UnexpectedError(_) => 500,
        }
    }

    /// The message this error is shown with.
    pub open spec fn spec_message(&self) -> Seq<char> {
        match self {
            ConsumeFileUploadError::ValidationError(message) => message@,
            ConsumeFileUploadError::NotFound(message) => message@,
            ConsumeFileUploadError::ConflictError(message) => message@,
            ConsumeFileUploadError::UnexpectedError(message) => message@,
        }
    }

    pub fn status_code(&self) -> (code: u16)
        ensures
            code == self.spec_status_code(),
    {
        match self {
            ConsumeFileUploadError::ValidationError(_) => 400,
            ConsumeFileUploadError::NotFound(_) => 404,
            ConsumeFileUploadError::ConflictError(_) => 409,
            ConsumeFileUploadError::UnexpectedError(_) => 500,
        }
    }

    pub fn message(&self) -> (message: &String)
        ensures
            message@ == self.spec_message(),
    {
        match self {
            ConsumeFileUploadError::ValidationError(message) => message,
            ConsumeFileUploadError::NotFound(message) => message,
            ConsumeFileUploadError::ConflictError(message) => message,
            ConsumeFileUploadError::UnexpectedError(message) => message,
        }
    }
}

/// Failures of deleting a file upload.
#[derive(Debug)]
pub enum DeleteFileUploadError {
    ValidationError(String),
    Forbidden(String),
    NotFound(String),
    ConflictError(String),
    UnexpectedError(String),
}

impl DeleteFileUploadError {
    /// The HTTP status this error is answered with.
    pub open spec fn spec_status_code(&self) -> u16 {
        match self {
            DeleteFileUploadError::ValidationError(_) => 400,
            DeleteFileUploadError::Forbidden(_) => 403,
            DeleteFileUploadError::NotFound(_) => 404,
            DeleteFileUploadError::ConflictError(_) => 409,
            DeleteFileUploadError::UnexpectedError(_) => 500,
        }
    }

    /// The message this error is shown with.
    pub open spec fn spec_message(&self) -> Seq<char> {
        match self {
            DeleteFileUploadError::ValidationError(message) => message@,
            DeleteFileUploadError::Forbidden(message) => message@,
            DeleteFileUploadError::NotFound(message) => message@,
            DeleteFileUploadError::ConflictError(message) => message@,
            DeleteFileUploadError::UnexpectedError(message) => message@,
        }
    }

    pub fn status_code(&self) -> (code: u16)
        ensures
            code == self.spec_status_code(),
    {
        match self {
            DeleteFileUploadError::ValidationError(_) => 400,
            DeleteFileUploadError::Forbidden(_) => 403,
            DeleteFileUploadError::NotFound(_) => 404,
            DeleteFileUploadError::ConflictError(_) => 409,
            DeleteFileUploadError::UnexpectedError(_) => 500,
        }
    }

    pub fn message(&self) -> (message: &String)
        ensures
            message@ == self.spec_message(),
    {
        match self {
            DeleteFileUploadError::ValidationError(message) => message,
            DeleteFileUploadError::Forbidden(message) => message,
            DeleteFileUploadError::NotFound(message) => message,
            DeleteFileUploadError::ConflictError(message) => message,
            DeleteFileUploadError::UnexpectedError(message) => message,
        }
    }
}

/// Failures of uploading a file.
#[derive(Debug)]
pub enum UploadFileError {
    ValidationError(String),
    Forbidden(String),
    UnexpectedError(String),
}

impl UploadFileError {
    /// The HTTP status this error is answered with.
    pub open spec fn spec_status_code(&self) -> u16 {
        match self {
            UploadFileError::ValidationError(_) => 400,
            UploadFileError::Forbidden(_) => 403,
            UploadFileError::UnexpectedError(_) => 500,
        }
    }

    /// The message this error is shown with.
    pub open spec fn spec_message(&self) -> Seq<char> {
        match self {
            UploadFileError::ValidationError(message) => message@,
            UploadFileError::Forbidden(message) => message@,
            UploadFileError::UnexpectedError(message) => message@,
        }
    }

    pub fn status_code(&self) -> (code: u16)
        ensures
            code == self.spec_status_code(),
    {
        match self {
            UploadFileError::ValidationError(_) => 400,
            UploadFileError::Forbidden(_) => 403,
            UploadFileError::UnexpectedError(_) => 500,
        }
    }

    pub fn message(&self) -> (message: &String)
        ensures
            message@ == self.spec_message(),
    {
        match self {
            UploadFileError::ValidationError(message) => message,
            UploadFileError::Forbidden(message) => message,
            UploadFileError::UnexpectedError(message) => message,
        }
    }
}

/// Failures of guest registration and of issuing registration codes.
#[derive(Debug)]
pub enum GuestRegistrationError {
    ValidationError(String),
    Forbidden(String),
    ConflictError(String),
    UnexpectedError(String),
}

impl GuestRegistrationError {
    /// The HTTP status this error is answered with.
    pub open spec fn spec_status_code(&self) -> u16 {
        match self {
            GuestRegistrationError::ValidationError(_) => 400,
            GuestRegistrationError::Forbidden(_) => 403,
            GuestRegistrationError::ConflictError(_) => 409,
            GuestRegistrationError::UnexpectedError(_) => 500,
        }
    }

    /// The message this error is shown with.
    pub open spec fn spec_message(&self) -> Seq<char> {
        match self {
            GuestRegistrationError::ValidationError(message) => message@,
            GuestRegistrationError::Forbidden(message) => message@,
            GuestRegistrationError::ConflictError(message) => message@,
            GuestRegistrationError::UnexpectedError(message) => message@,
        }
    }

    pub fn status_code(&self) -> (code: u16)
        ensures
            code == self.spec_status_code(),
    {
        match self {
            GuestRegistrationError::ValidationError(_) => 400,
            GuestRegistrationError::Forbidden(_) => 403,
            GuestRegistrationError::ConflictError(_) => 409,
            GuestRegistrationError::UnexpectedError(_) => 500,
        }
    }

    pub fn message(&self) -> (message: &String)
        ensures
            message@ == self.spec_message(),
    {
        match self {
            GuestRegistrationError::ValidationError(message) => message,
            GuestRegistrationError::Forbidden(message) => message,
            GuestRegistrationError::ConflictError(message) => message,
            GuestRegistrationError::UnexpectedError(message) => message,
        }
    }
}

/// Failures of deleting several inventory items at once.
#[derive(Debug)]
pub enum BatchDeleteInventoryItemsError {
    ValidationError(String),
    Forbidden(String),
    NotFound(String),
    ConflictError(String),
    UnexpectedError(String),
}

impl BatchDeleteInventoryItemsError {
    /// The HTTP status this error is answered with.
    pub open spec fn spec_status_code(&self) -> u16 {
        match self {
            BatchDeleteInventoryItemsError::ValidationError(_) => 400,
            BatchDeleteInventoryItemsError::Forbidden(_) => 403,
            BatchDeleteInventoryItemsError::NotFound(_) => 404,
            BatchDeleteInventoryItemsError::ConflictError(_) => 409,
            BatchDeleteInventoryItemsError::UnexpectedError(_) => 500,
        }
    }

    /// The message this error is shown with.
    pub open spec fn spec_message(&self) -> Seq<char> {
        match self {
            BatchDeleteInventoryItemsError::ValidationError(message) => message@,
            BatchDeleteInventoryItemsError::Forbidden(message) => message@,
            BatchDeleteInventoryItemsError::NotFound(message) => message@,
            BatchDeleteInventoryItemsError::ConflictError(message) => message@,
            BatchDeleteInventoryItemsError::UnexpectedError(message) => message@,
        }
    }

    pub fn status_code(&self) -> (code: u16)
        ensures
            code == self.spec_status_code(),
    {
        match self {
            BatchDeleteInventoryItemsError::ValidationError(_) => 400,
            BatchDeleteInventoryItemsError::Forbidden(_) => 403,
            BatchDeleteInventoryItemsError::NotFound(_) => 404,
            BatchDeleteInventoryItemsError::ConflictError(_) => 409,
            BatchDeleteInventoryItemsError::UnexpectedError(_) => 500,
        }
    }

    pub fn message(&self) -> (message: &String)
        ensures
            message@ == self.spec_message(),
    {
        match self {
            BatchDeleteInventoryItemsError::ValidationError(message) => message,
            BatchDeleteInventoryItemsError::Forbidden(message) => message,
            BatchDeleteInventoryItemsError::NotFound(message) => message,
            BatchDeleteInventoryItemsError::ConflictError(message) => message,
            BatchDeleteInventoryItemsError::UnexpectedError(message) => message,
        }
    }
}

/// Failures of updating several inventory items at once.
#[derive(Debug)]
pub enum BatchUpdateInventoryItemsError {
    ValidationError(String),
    Forbidden(String),
    NotFound(String),
    ConflictError(String),
    UnexpectedError(String),
}

impl BatchUpdateInventoryItemsError {
    /// The HTTP status this error is answered with.
    pub open spec fn spec_status_code(&self) -> u16 {
        match self {
            BatchUpdateInventoryItemsError::ValidationError(_) => 400,
            BatchUpdateInventoryItemsError::Forbidden(_) => 403,
            BatchUpdateInventoryItemsError::NotFound(_) => 404,
            BatchUpdateInventoryItemsError::ConflictError(_) => 409,
            BatchUpdateInventoryItemsError::UnexpectedError(_) => 500,
        }
    }

    /// The message this error is shown with.
    pub open spec fn spec_message(&self) -> Seq<char> {
        match self {
            BatchUpdateInventoryItemsError::ValidationError(message) => message@,
            BatchUpdateInventoryItemsError::Forbidden(message) => message@,
            BatchUpdateInventoryItemsError::NotFound(message) => message@,
            BatchUpdateInventoryItemsError::ConflictError(message) => message@,
            BatchUpdateInventoryItemsError::UnexpectedError(message) => message@,
        }
    }

    pub fn status_code(&self) -> (code: u16)
        ensures
            code == self.spec_status_code(),
    {
        match self {
            BatchUpdateInventoryItemsError::ValidationError(_) => 400,
            BatchUpdateInventoryItemsError::Forbidden(_) => 403,
            BatchUpdateInventoryItemsError::NotFound(_) => 404,
            BatchUpdateInventoryItemsError::ConflictError(_) => 409,
            BatchUpdateInventoryItemsError::UnexpectedError(_) => 500,
        }
    }

    pub fn message(&self) -> (message: &String)
        ensures
            message@ == self.spec_message(),
    {
        match self {
            BatchUpdateInventoryItemsError::ValidationError(message) => message,
            BatchUpdateInventoryItemsError::Forbidden(message) => message,
            BatchUpdateInventoryItemsError::NotFound(message) => message,
            BatchUpdateInventoryItemsError::ConflictError(message) => message,
            BatchUpdateInventoryItemsError::UnexpectedError(message) => message,
        }
    }
}

/// Failures of creating inventory items.
#[derive(Debug)]
pub enum CreateInventoryItemsError {
    ValidationError(String),
    Forbidden(String),
    NotFound(String),
    ConflictError(String),
    UnexpectedError(String),
}

impl CreateInventoryItemsError {
    /// The HTTP status this error is answered with.
    pub open spec fn spec_status_code(&self) -> u16 {
        match self {
            CreateInventoryItemsError::ValidationError(_) => 400,
            CreateInventoryItemsError::Forbidden(_) => 403,
            CreateInventoryItemsError::NotFound(_) => 404,
            CreateInventoryItemsError::ConflictError(_) => 409,
            CreateInventoryItemsError::UnexpectedError(_) => 500,
        }
    }

    /// The message this error is shown with.
    pub open spec fn spec_message(&self) -> Seq<char> {
        match self {
            CreateInventoryItemsError::ValidationError(message) => message@,
            CreateInventoryItemsError::Forbidden(message) => message@,
            CreateInventoryItemsError::NotFound(message) => message@,
            CreateInventoryItemsError::ConflictError(message) => message@,
            CreateInventoryItemsError::UnexpectedError(message) => message@,
        }
    }

    pub fn status_code(&self) -> (code: u16)
        ensures
            code == self.spec_status_code(),
    {
        match self {
            CreateInventoryItemsError::ValidationError(_) => 400,
            CreateInventoryItemsError::Forbidden(_) => 403,
            CreateInventoryItemsError::NotFound(_) => 404,
            CreateInventoryItemsError::ConflictError(_) => 409,
            CreateInventoryItemsError::UnexpectedError(_) => 500,
        }
    }

    pub fn message(&self) -> (message: &String)
        ensures
            message@ == self.spec_message(),
    {
        match self {
            CreateInventoryItemsError::ValidationError(message) => message,
            CreateInventoryItemsError::Forbidden(message) => message,
            CreateInventoryItemsError::NotFound(message) => message,
            CreateInventoryItemsError::ConflictError(message) => message,
            CreateInventoryItemsError::UnexpectedError(message) => message,
        }
    }
}

/// Failures of deleting an inventory item.
#[derive(Debug)]
pub enum DeleteInventoryItemError {
    Forbidden(String),
    NotFound(String),
    ConflictError(String),
    UnexpectedError(String),
}

impl DeleteInventoryItemError {
    /// The HTTP status this error is answered with.
    pub open spec fn spec_status_code(&self) -> u16 {
        match self {
            DeleteInventoryItemError::Forbidden(_) => 403,
            DeleteInventoryItemError::NotFound(_) => 404,
            DeleteInventoryItemError::ConflictError(_) => 409,
            DeleteInventoryItemError::UnexpectedError(_) => 500,
        }
    }

    /// The message this error is shown with.
    pub open spec fn spec_message(&self) -> Seq<char> {
        match self {
            DeleteInventoryItemError::Forbidden(message) => message@,
            DeleteInventoryItemError::NotFound(message) => message@,
            DeleteInventoryItemError::ConflictError(message) => message@,
            DeleteInventoryItemError::UnexpectedError(message) => message@,
        }
    }

    pub fn status_code(&self) -> (code: u16)
        ensures
            code == self.spec_status_code(),
    {
        match self {
            DeleteInventoryItemError::Forbidden(_) => 403,
            DeleteInventoryItemError::NotFound(_) => 404,
            DeleteInventoryItemError::ConflictError(_) => 409,
            DeleteInventoryItemError::UnexpectedError(_) => 500,
        }
    }

    pub fn message(&self) -> (message: &String)
        ensures
            message@ == self.spec_message(),
    {
        match self {
            DeleteInventoryItemError::Forbidden(message) => message,
            DeleteInventoryItemError::NotFound(message) => message,
            DeleteInventoryItemError::ConflictError(message) => message,
            DeleteInventoryItemError::UnexpectedError(message) => message,
        }
    }
}

/// Failures of reading an inventory item.
#[derive(Debug)]
pub enum GetInventoryItemError {
    Forbidden(String),
    NotFound(String),
    UnexpectedError(String),
}

impl GetInventoryItemError {
    /// The HTTP status this error is answered with.
    pub open spec fn spec_status_code(&self) -> u16 {
        match self {
            GetInventoryItemError::Forbidden(_) => 403,
            GetInventoryItemError::NotFound(_) => 404,
            GetInventoryItemError::UnexpectedError(_) => 500,
        }
    }

    /// The message this error is shown with.
    pub open spec fn spec_message(&self) -> Seq<char> {
        match self {
            GetInventoryItemError::Forbidden(message) => message@,
            GetInventoryItemError::NotFound(message) => message@,
            GetInventoryItemError::UnexpectedError(message) => message@,
        }
    }

    pub fn status_code(&self) -> (code: u16)
        ensures
            code == self.spec_status_code(),
    {
        match self {
            GetInventoryItemError::Forbidden(_) => 403,
            GetInventoryItemError::NotFound(_) => 404,
            GetInventoryItemError::UnexpectedError(_) => 500,
        }
    }

    pub fn message(&self) -> (message: &String)
        ensures
            message@ == self.spec_message(),
    {
        match self {
            GetInventoryItemError::Forbidden(message) => message,
            GetInventoryItemError::NotFound(message) => message,
            GetInventoryItemError::UnexpectedError(message) => message,
        }
    }
}

/// Failures of merging inventory items into one.
#[derive(Debug)]
pub enum MergeInventoryItemsError {
    ValidationError(String),
    Forbidden(String),
    NotFound(String),
    ConflictError(String),
    UnexpectedError(String),
}

impl MergeInventoryItemsError {
    /// The HTTP status this error is answered with.
    pub open spec fn spec_status_code(&self) -> u16 {
        match self {
            MergeInventoryItemsError::ValidationError(_) => 400,
            MergeInventoryItemsError::Forbidden(_) => 403,
            MergeInventoryItemsError::NotFound(_) => 404,
            MergeInventoryItemsError::ConflictError(_) => 409,
            MergeInventoryItemsError::UnexpectedError(_) => 500,
        }
    }

    /// The message this error is shown with.
    pub open spec fn spec_message(&self) -> Seq<char> {
        match self {
            MergeInventoryItemsError::ValidationError(message) => message@,
            MergeInventoryItemsError::Forbidden(message) => message@,
            MergeInventoryItemsError::NotFound(message) => message@,
            MergeInventoryItemsError::ConflictError(message) => message@,
            MergeInventoryItemsError::UnexpectedError(message) => message@,
        }
    }

    pub fn status_code(&self) -> (code: u16)
        ensures
            code == self.spec_status_code(),
    {
        match self {
            MergeInventoryItemsError::ValidationError(_) => 400,
            MergeInventoryItemsError::Forbidden(_) => 403,
            MergeInventoryItemsError::NotFound(_) => 404,
            MergeInventoryItemsError::ConflictError(_) => 409,
            MergeInventoryItemsError::UnexpectedError(_) => 500,
        }
    }

    pub fn message(&self) -> (message: &String)
        ensures
            message@ == self.spec_message(),
    {
        match self {
            MergeInventoryItemsError::ValidationError(message) => message,
            MergeInventoryItemsError::Forbidden(message) => message,
            MergeInventoryItemsError::NotFound(message) => message,
            MergeInventoryItemsError::ConflictError(message) => message,
            MergeInventoryItemsError::UnexpectedError(message) => message,
        }
    }
}

/// Failures of splitting an amount off an inventory item.
#[derive(Debug)]
pub enum SplitInventoryItemError {
    ValidationError(String),
    Forbidden(String),
    NotFound(String),
    ConflictError(String),
    UnexpectedError(String),
}

impl SplitInventoryItemError {
    /// The HTTP status this error is answered with.
    pub open spec fn spec_status_code(&self) -> u16 {
        match self {
            SplitInventoryItemError::ValidationError(_) => 400,
            SplitInventoryItemError::Forbidden(_) => 403,
            SplitInventoryItemError::NotFound(_) => 404,
            SplitInventoryItemError::ConflictError(_) => 409,
            SplitInventoryItemError::UnexpectedError(_) => 500,
        }
    }

    /// The message this error is shown with.
    pub open spec fn spec_message(&self) -> Seq<char> {
        match self {
            SplitInventoryItemError::ValidationError(message) => message@,
            SplitInventoryItemError::Forbidden(message) => message@,
            SplitInventoryItemError::NotFound(message) => message@,
            SplitInventoryItemError::ConflictError(message) => message@,
            SplitInventoryItemError::UnexpectedError(message) => message@,
        }
    }

    pub fn status_code(&self) -> (code: u16)
        ensures
            code == self.spec_status_code(),
    {
        match self {
            SplitInventoryItemError::ValidationError(_) => 400,
            SplitInventoryItemError::Forbidden(_) => 403,
            SplitInventoryItemError::NotFound(_) => 404,
            SplitInventoryItemError::ConflictError(_) => 409,
            SplitInventoryItemError::UnexpectedError(_) => 500,
        }
    }

    pub fn message(&self) -> (message: &String)
        ensures
            message@ == self.spec_message(),
    {
        match self {
            SplitInventoryItemError::ValidationError(message) => message,
            SplitInventoryItemError::Forbidden(message) => message,
            SplitInventoryItemError::NotFound(message) => message,
            SplitInventoryItemError::ConflictError(message) => message,
            SplitInventoryItemError::UnexpectedError(message) => message,
        }
    }
}

/// Failures of updating an inventory item.
#[derive(Debug)]
pub enum UpdateInventoryItemError {
    ValidationError(String),
    Forbidden(String),
    NotFound(String),
    ConflictError(String),
    UnexpectedError(String),
}

impl UpdateInventoryItemError {
    /// The HTTP status this error is answered with.
    pub open spec fn spec_status_code(&self) -> u16 {
        match self {
            UpdateInventoryItemError::ValidationError(_) => 400,
            UpdateInventoryItemError::Forbidden(_) => 403,
            UpdateInventoryItemError::NotFound(_) => 404,
            UpdateInventoryItemError::ConflictError(_) => 409,
            UpdateInventoryItemError::UnexpectedError(_) => 500,
        }
    }

    /// The message this error is shown with.
    pub open spec fn spec_message(&self) -> Seq<char> {
        match self {
            UpdateInventoryItemError::ValidationError(message) => message@,
            UpdateInventoryItemError::Forbidden(message) => message@,
            UpdateInventoryItemError::NotFound(message) => message@,
            UpdateInventoryItemError::ConflictError(message) => message@,
            UpdateInventoryItemError::UnexpectedError(message) => message@,
        }
    }

    pub fn status_code(&self) -> (code: u16)
        ensures
            code == self.spec_status_code(),
    {
        match self {
            UpdateInventoryItemError::ValidationError(_) => 400,
            UpdateInventoryItemError::Forbidden(_) => 403,
            UpdateInventoryItemError::NotFound(_) => 404,
            UpdateInventoryItemError::ConflictError(_) => 409,
            UpdateInventoryItemError::UnexpectedError(_) => 500,
        }
    }

    pub fn message(&self) -> (message: &String)
        ensures
            message@ == self.spec_message(),
    {
        match self {
            UpdateInventoryItemError::ValidationError(message) => message,
            UpdateInventoryItemError::Forbidden(message) => message,
            UpdateInventoryItemError::NotFound(message) => message,
            UpdateInventoryItemError::ConflictError(message) => message,
            UpdateInventoryItemError::UnexpectedError(message) => message,
        }
    }
}

impl From<InventoryItemDatabaseError> for BatchDeleteInventoryItemsError {
    fn from(error: InventoryItemDatabaseError) -> (converted: Self) {
        match error {
            InventoryItemDatabaseError::Validation(message) => BatchDeleteInventoryItemsError::ValidationError(message),
            InventoryItemDatabaseError::NotFound(message) => BatchDeleteInventoryItemsError::NotFound(message),
            InventoryItemDatabaseError::Conflict(message) => BatchDeleteInventoryItemsError::ConflictError(message),
            InventoryItemDatabaseError::Unexpected(message) => BatchDeleteInventoryItemsError::UnexpectedError(message),
        }
    }
}

impl FromSpecImpl<InventoryItemDatabaseError> for BatchDeleteInventoryItemsError {
    open spec fn obeys_from_spec() -> bool {
        true
    }

    open spec fn from_spec(error: InventoryItemDatabaseError) -> Self {
        match error {
            InventoryItemDatabaseError::Validation(message) => BatchDeleteInventoryItemsError::ValidationError(message),
            InventoryItemDatabaseError::NotFound(message) => BatchDeleteInventoryItemsError::NotFound(message),
            InventoryItemDatabaseError::Conflict(message) => BatchDeleteInventoryItemsError::ConflictError(message),
            InventoryItemDatabaseError::Unexpected(message) => BatchDeleteInventoryItemsError::UnexpectedError(message),
        }
    }
}

impl From<InventoryItemDatabaseError> for BatchUpdateInventoryItemsError {
    fn from(error: InventoryItemDatabaseError) -> (converted: Self) {
        match error {
            InventoryItemDatabaseError::Validation(message) => BatchUpdateInventoryItemsError::ValidationError(message),
            InventoryItemDatabaseError::NotFound(message) => BatchUpdateInventoryItemsError::NotFound(message),
            InventoryItemDatabaseError::Conflict(message) => BatchUpdateInventoryItemsError::ConflictError(message),
            InventoryItemDatabaseError::Unexpected(message) => BatchUpdateInventoryItemsError::UnexpectedError(message),
        }
    }
}

impl FromSpecImpl<InventoryItemDatabaseError> for BatchUpdateInventoryItemsError {
    open spec fn obeys_from_spec() -> bool {
        true
    }

    open spec fn from_spec(error: InventoryItemDatabaseError) -> Self {
        match error {
            InventoryItemDatabaseError::Validation(message) => BatchUpdateInventoryItemsError::ValidationError(message),
            InventoryItemDatabaseError::NotFound(message) => BatchUpdateInventoryItemsError::NotFound(message),
            InventoryItemDatabaseError::Conflict(message) => BatchUpdateInventoryItemsError::ConflictError(message),
            InventoryItemDatabaseError::Unexpected(message) => BatchUpdateInventoryItemsError::UnexpectedError(message),
        }
    }
}

impl From<InventoryItemDatabaseError> for CreateInventoryItemsError {
    fn from(error: InventoryItemDatabaseError) -> (converted: Self) {
        match error {
            InventoryItemDatabaseError::Validation(message) => CreateInventoryItemsError::ValidationError(message),
            InventoryItemDatabaseError::NotFound(message) => CreateInventoryItemsError::NotFound(message),
            InventoryItemDatabaseError::Conflict(message) => CreateInventoryItemsError::ConflictError(message),
            InventoryItemDatabaseError::Unexpected(message) => CreateInventoryItemsError::UnexpectedError(message),
        }
    }
}

impl FromSpecImpl<InventoryItemDatabaseError> for CreateInventoryItemsError {
    open spec fn obeys_from_spec() -> bool {
        true
    }

    open spec fn from_spec(error: InventoryItemDatabaseError) -> Self {
        match error {
            InventoryItemDatabaseError::Validation(message) => CreateInventoryItemsError::ValidationError(message),
            InventoryItemDatabaseError::NotFound(message) => CreateInventoryItemsError::NotFound(message),
            InventoryItemDatabaseError::Conflict(message) => CreateInventoryItemsError::ConflictError(message),
            InventoryItemDatabaseError::Unexpected(message) => CreateInventoryItemsError::UnexpectedError(message),
        }
    }
}

/// A rule broken while deleting is a conflict with the state of the item, not bad input.
impl From<InventoryItemDatabaseError> for DeleteInventoryItemError {
    fn from(error: InventoryItemDatabaseError) -> (converted: Self) {
        match error {
            InventoryItemDatabaseError::Validation(message) => DeleteInventoryItemError::ConflictError(message),
            InventoryItemDatabaseError::NotFound(message) => DeleteInventoryItemError::NotFound(message),
            InventoryItemDatabaseError::Conflict(message) => DeleteInventoryItemError::ConflictError(message),
            InventoryItemDatabaseError::Unexpected(message) => DeleteInventoryItemError::UnexpectedError(message),
        }
    }
}

impl FromSpecImpl<InventoryItemDatabaseError> for DeleteInventoryItemError {
    open spec fn obeys_from_spec() -> bool {
        true
    }

    open spec fn from_spec(error: InventoryItemDatabaseError) -> Self {
        match error {
            InventoryItemDatabaseError::Validation(message) => DeleteInventoryItemError::ConflictError(message),
            InventoryItemDatabaseError::NotFound(message) => DeleteInventoryItemError::NotFound(message),
            InventoryItemDatabaseError::Conflict(message) => DeleteInventoryItemError::ConflictError(message),
            InventoryItemDatabaseError::Unexpected(message) => DeleteInventoryItemError::UnexpectedError(message),
        }
    }
}

impl From<InventoryItemDatabaseError> for MergeInventoryItemsError {
    fn from(error: InventoryItemDatabaseError) -> (converted: Self) {
        match error {
            InventoryItemDatabaseError::Validation(message) => MergeInventoryItemsError::ValidationError(message),
            InventoryItemDatabaseError::NotFound(message) => MergeInventoryItemsError::NotFound(message),
            InventoryItemDatabaseError::Conflict(message) => MergeInventoryItemsError::ConflictError(message),
            InventoryItemDatabaseError::Unexpected(message) => MergeInventoryItemsError::UnexpectedError(message),
        }
    }
}

impl FromSpecImpl<InventoryItemDatabaseError> for MergeInventoryItemsError {
    open spec fn obeys_from_spec() -> bool {
        true
    }

    open spec fn from_spec(error: InventoryItemDatabaseError) -> Self {
        match error {
            InventoryItemDatabaseError::Validation(message) => MergeInventoryItemsError::ValidationError(message),
            InventoryItemDatabaseError::NotFound(message) => MergeInventoryItemsError::NotFound(message),
            InventoryItemDatabaseError::Conflict(message) => MergeInventoryItemsError::ConflictError(message),
            InventoryItemDatabaseError::Unexpected(message) => MergeInventoryItemsError::UnexpectedError(message),
        }
    }
}

impl From<InventoryItemDatabaseError> for SplitInventoryItemError {
    fn from(error: InventoryItemDatabaseError) -> (converted: Self) {
        match error {
            InventoryItemDatabaseError::Validation(message) => SplitInventoryItemError::ValidationError(message),
            InventoryItemDatabaseError::NotFound(message) => SplitInventoryItemError::NotFound(message),
            InventoryItemDatabaseError::Conflict(message) => SplitInventoryItemError::ConflictError(message),
            InventoryItemDatabaseError::Unexpected(message) => SplitInventoryItemError::UnexpectedError(message),
        }
    }
}

impl FromSpecImpl<InventoryItemDatabaseError> for SplitInventoryItemError {
    open spec fn obeys_from_spec() -> bool {
        true
    }

    open spec fn from_spec(error: InventoryItemDatabaseError) -> Self {
        match error {
            InventoryItemDatabaseError::Validation(message) => SplitInventoryItemError::ValidationError(message),
            InventoryItemDatabaseError::NotFound(message) => SplitInventoryItemError::NotFound(message),
            InventoryItemDatabaseError::Conflict(message) => SplitInventoryItemError::ConflictError(message),
            InventoryItemDatabaseError::Unexpected(message) => SplitInventoryItemError::UnexpectedError(message),
        }
    }
}

impl From<InventoryItemDatabaseError> for UpdateInventoryItemError {
    fn from(error: InventoryItemDatabaseError) -> (converted: Self) {
        match error {
            InventoryItemDatabaseError::Validation(message) => UpdateInventoryItemError::ValidationError(message),
            InventoryItemDatabaseError::NotFound(message) => UpdateInventoryItemError::NotFound(message),
            InventoryItemDatabaseError::Conflict(message) => UpdateInventoryItemError::ConflictError(message),
            InventoryItemDatabaseError::Unexpected(message) => UpdateInventoryItemError::UnexpectedError(message),
        }
    }
}

impl FromSpecImpl<InventoryItemDatabaseError> for UpdateInventoryItemError {
    open spec fn obeys_from_spec() -> bool {
        true
    }

    open spec fn from_spec(error: InventoryItemDatabaseError) -> Self {
        match error {
            InventoryItemDatabaseError::Validation(message) => UpdateInventoryItemError::ValidationError(message),
            InventoryItemDatabaseError::NotFound(message) => UpdateInventoryItemError::NotFound(message),
            InventoryItemDatabaseError::Conflict(message) => UpdateInventoryItemError::ConflictError(message),
            InventoryItemDatabaseError::Unexpected(message) => UpdateInventoryItemError::UnexpectedError(message),
        }
    }
}

/// An upload referenced by a create payload that does not exist is bad input, not a missing inventory item.
impl From<AssignAttachmentError> for CreateInventoryItemsError {
    fn from(error: AssignAttachmentError) -> (converted: Self) {
        match error {
            AssignAttachmentError::ValidationError(message) => CreateInventoryItemsError::ValidationError(message),
            AssignAttachmentError::Forbidden(message) => CreateInventoryItemsError::Forbidden(message),
            AssignAttachmentError::NotFound(message) => CreateInventoryItemsError::ValidationError(message),
            AssignAttachmentError::ConflictError(message) => CreateInventoryItemsError::ConflictError(message),
            AssignAttachmentError::UnexpectedError(message) => CreateInventoryItemsError::UnexpectedError(message),
        }
    }
}

impl FromSpecImpl<AssignAttachmentError> for CreateInventoryItemsError {
    open spec fn obeys_from_spec() -> bool {
        true
    }

    open spec fn from_spec(error: AssignAttachmentError) -> Self {
        match error {
            AssignAttachmentError::ValidationError(message) => CreateInventoryItemsError::ValidationError(message),
            AssignAttachmentError::Forbidden(message) => CreateInventoryItemsError::Forbidden(message),
            AssignAttachmentError::NotFound(message) => CreateInventoryItemsError::ValidationError(message),
            AssignAttachmentError::ConflictError(message) => CreateInventoryItemsError::ConflictError(message),
            AssignAttachmentError::UnexpectedError(message) => CreateInventoryItemsError::UnexpectedError(message),
        }
    }
}

/// The only statements issued while verifying a request are the nonce ones, so a conflict there is a replayed nonce, and a rejected write is this server's problem rather than the caller's.
impl From<FederationDatabaseError> for FederationSecurityError {
    fn from(error: FederationDatabaseError) -> (converted: Self) {
        match error {
            FederationDatabaseError::Conflict(message) => FederationSecurityError::Unauthorized(message),
            FederationDatabaseError::Validation(message) => FederationSecurityError::Unexpected(message),
            FederationDatabaseError::Unexpected(message) => FederationSecurityError::Unexpected(message),
        }
    }
}

impl FromSpecImpl<FederationDatabaseError> for FederationSecurityError {
    open spec fn obeys_from_spec() -> bool {
        true
    }

    open spec fn from_spec(error: FederationDatabaseError) -> Self {
        match error {
            FederationDatabaseError::Conflict(message) => FederationSecurityError::Unauthorized(message),
            FederationDatabaseError::Validation(message) => FederationSecurityError::Unexpected(message),
            FederationDatabaseError::Unexpected(message) => FederationSecurityError::Unexpected(message),
        }
    }
}

impl From<FederationDatabaseError> for AcceptPairingError {
    fn from(error: FederationDatabaseError) -> (converted: Self) {
        match error {
            FederationDatabaseError::Validation(message) => AcceptPairingError::ValidationError(message),
            FederationDatabaseError::Conflict(message) => AcceptPairingError::ConflictError(message),
            FederationDatabaseError::Unexpected(message) => AcceptPairingError::UnexpectedError(message),
        }
    }
}

impl FromSpecImpl<FederationDatabaseError> for AcceptPairingError {
    open spec fn obeys_from_spec() -> bool {
        true
    }

    open spec fn from_spec(error: FederationDatabaseError) -> Self {
        match error {
            FederationDatabaseError::Validation(message) => AcceptPairingError::ValidationError(message),
            FederationDatabaseError::Conflict(message) => AcceptPairingError::ConflictError(message),
            FederationDatabaseError::Unexpected(message) => AcceptPairingError::UnexpectedError(message),
        }
    }
}

impl From<FederationDatabaseError> for CreatePairingCodeError {
    fn from(error: FederationDatabaseError) -> (converted: Self) {
        match error {
            FederationDatabaseError::Validation(message) => CreatePairingCodeError::ValidationError(message),
            FederationDatabaseError::Conflict(message) => CreatePairingCodeError::ConflictError(message),
            FederationDatabaseError::Unexpected(message) => CreatePairingCodeError::UnexpectedError(message),
        }
    }
}

impl FromSpecImpl<FederationDatabaseError> for CreatePairingCodeError {
    open spec fn obeys_from_spec() -> bool {
        true
    }

    open spec fn from_spec(error: FederationDatabaseError) -> Self {
        match error {
            FederationDatabaseError::Validation(message) => CreatePairingCodeError::ValidationError(message),
            FederationDatabaseError::Conflict(message) => CreatePairingCodeError::ConflictError(message),
            FederationDatabaseError::Unexpected(message) => CreatePairingCodeError::UnexpectedError(message),
        }
    }
}

impl From<FederationDatabaseError> for CreateTrustError {
    fn from(error: FederationDatabaseError) -> (converted: Self) {
        match error {
            FederationDatabaseError::Validation(message) => CreateTrustError::ValidationError(message),
            FederationDatabaseError::Conflict(message) => CreateTrustError::ConflictError(message),
            FederationDatabaseError::Unexpected(message) => CreateTrustError::UnexpectedError(message),
        }
    }
}

impl FromSpecImpl<FederationDatabaseError> for CreateTrustError {
    open spec fn obeys_from_spec() -> bool {
        true
    }

    open spec fn from_spec(error: FederationDatabaseError) -> Self {
        match error {
            FederationDatabaseError::Validation(message) => CreateTrustError::ValidationError(message),
            FederationDatabaseError::Conflict(message) => CreateTrustError::ConflictError(message),
            FederationDatabaseError::Unexpected(message) => CreateTrustError::UnexpectedError(message),
        }
    }
}

impl From<FederationDatabaseError> for MergeGuestLinkError {
    fn from(error: FederationDatabaseError) -> (converted: Self) {
        match error {
            FederationDatabaseError::Validation(message) => MergeGuestLinkError::ValidationError(message),
            FederationDatabaseError::Conflict(message) => MergeGuestLinkError::ConflictError(message),
            FederationDatabaseError::Unexpected(message) => MergeGuestLinkError::UnexpectedError(message),
        }
    }
}

impl FromSpecImpl<FederationDatabaseError> for MergeGuestLinkError {
    open spec fn obeys_from_spec() -> bool {
        true
    }

    open spec fn from_spec(error: FederationDatabaseError) -> Self {
        match error {
            FederationDatabaseError::Validation(message) => MergeGuestLinkError::ValidationError(message),
            FederationDatabaseError::Conflict(message) => MergeGuestLinkError::ConflictError(message),
            FederationDatabaseError::Unexpected(message) => MergeGuestLinkError::UnexpectedError(message),
        }
    }
}

impl From<FederationDatabaseError> for RevokeTrustError {
    fn from(error: FederationDatabaseError) -> (converted: Self) {
        match error {
            FederationDatabaseError::Validation(message) => RevokeTrustError::ValidationError(message),
            FederationDatabaseError::Conflict(message) => RevokeTrustError::ConflictError(message),
            FederationDatabaseError::Unexpected(message) => RevokeTrustError::UnexpectedError(message),
        }
    }
}

impl FromSpecImpl<FederationDatabaseError> for RevokeTrustError {
    open spec fn obeys_from_spec() -> bool {
        true
    }

    open spec fn from_spec(error: FederationDatabaseError) -> Self {
        match error {
            FederationDatabaseError::Validation(message) => RevokeTrustError::ValidationError(message),
            FederationDatabaseError::Conflict(message) => RevokeTrustError::ConflictError(message),
            FederationDatabaseError::Unexpected(message) => RevokeTrustError::UnexpectedError(message),
        }
    }
}

impl From<FederationDatabaseError> for InboundFederationError {
    fn from(error: FederationDatabaseError) -> (converted: Self) {
        match error {
            FederationDatabaseError::Validation(message) => InboundFederationError::ValidationError(message),
            FederationDatabaseError::Conflict(message) => InboundFederationError::ConflictError(message),
            FederationDatabaseError::Unexpected(message) => InboundFederationError::UnexpectedError(message),
        }
    }
}

impl FromSpecImpl<FederationDatabaseError> for InboundFederationError {
    open spec fn obeys_from_spec() -> bool {
        true
    }

    open spec fn from_spec(error: FederationDatabaseError) -> Self {
        match error {
            FederationDatabaseError::Validation(message) => InboundFederationError::ValidationError(message),
            FederationDatabaseError::Conflict(message) => InboundFederationError::ConflictError(message),
            FederationDatabaseError::Unexpected(message) => InboundFederationError::UnexpectedError(message),
        }
    }
}

impl From<FederationSecurityError> for InboundFederationError {
    fn from(error: FederationSecurityError) -> (converted: Self) {
        match error {
            FederationSecurityError::Unauthorized(message) => InboundFederationError::Unauthorized(message),
            FederationSecurityError::Forbidden(message) => InboundFederationError::Forbidden(message),
            FederationSecurityError::Unexpected(message) => InboundFederationError::UnexpectedError(message),
        }
    }
}

impl FromSpecImpl<FederationSecurityError> for InboundFederationError {
    open spec fn obeys_from_spec() -> bool {
        true
    }

    open spec fn from_spec(error: FederationSecurityError) -> Self {
        match error {
            FederationSecurityError::Unauthorized(message) => InboundFederationError::Unauthorized(message),
            FederationSecurityError::Forbidden(message) => InboundFederationError::Forbidden(message),
            FederationSecurityError::Unexpected(message) => InboundFederationError::UnexpectedError(message),
        }
    }
}

impl From<PublicDataError> for InboundFederationError {
    fn from(error: PublicDataError) -> (converted: Self) {
        match error {
            PublicDataError::Validation(message) => InboundFederationError::ValidationError(message),
            PublicDataError::NotFound(message) => InboundFederationError::NotFound(message),
            PublicDataError::Unexpected(message) => InboundFederationError::UnexpectedError(message),
        }
    }
}

impl FromSpecImpl<PublicDataError> for InboundFederationError {
    open spec fn obeys_from_spec() -> bool {
        true
    }

    open spec fn from_spec(error: PublicDataError) -> Self {
        match error {
            PublicDataError::Validation(message) => InboundFederationError::ValidationError(message),
            PublicDataError::NotFound(message) => InboundFederationError::NotFound(message),
            PublicDataError::Unexpected(message) => InboundFederationError::UnexpectedError(message),
        }
    }
}

impl From<BorrowRequestError> for InboundFederationError {
    fn from(error: BorrowRequestError) -> (converted: Self) {
        match error {
            BorrowRequestError::ValidationError(message) => InboundFederationError::ValidationError(message),
            BorrowRequestError::Forbidden(message) => InboundFederationError::Forbidden(message),
            BorrowRequestError::NotFound(message) => InboundFederationError::NotFound(message),
            BorrowRequestError::ConflictError(message) => InboundFederationError::ConflictError(message),
            BorrowRequestError::UnexpectedError(message) => InboundFederationError::UnexpectedError(message),
        }
    }
}

impl FromSpecImpl<BorrowRequestError> for InboundFederationError {
    open spec fn obeys_from_spec() -> bool {
        true
    }

    open spec fn from_spec(error: BorrowRequestError) -> Self {
        match error {
            BorrowRequestError::ValidationError(message) => InboundFederationError::ValidationError(message),
            BorrowRequestError::Forbidden(message) => InboundFederationError::Forbidden(message),
            BorrowRequestError::NotFound(message) => InboundFederationError::NotFound(message),
            BorrowRequestError::ConflictError(message) => InboundFederationError::ConflictError(message),
            BorrowRequestError::UnexpectedError(message) => InboundFederationError::UnexpectedError(message),
        }
    }
}

impl From<PublicDataError> for ProxyFederationError {
    fn from(error: PublicDataError) -> (converted: Self) {
        match error {
            PublicDataError::Validation(message) => ProxyFederationError::ValidationError(message),
            PublicDataError::NotFound(message) => ProxyFederationError::NotFound(message),
            PublicDataError::Unexpected(message) => ProxyFederationError::UnexpectedError(message),
        }
    }
}

impl FromSpecImpl<PublicDataError> for ProxyFederationError {
    open spec fn obeys_from_spec() -> bool {
        true
    }

    open spec fn from_spec(error: PublicDataError) -> Self {
        match error {
            PublicDataError::Validation(message) => ProxyFederationError::ValidationError(message),
            PublicDataError::NotFound(message) => ProxyFederationError::NotFound(message),
            PublicDataError::Unexpected(message) => ProxyFederationError::UnexpectedError(message),
        }
    }
}

impl From<UserDatabaseError> for GuestRegistrationError {
    fn from(error: UserDatabaseError) -> (converted: Self) {
        match error {
            UserDatabaseError::Validation(message) => GuestRegistrationError::ValidationError(message),
            UserDatabaseError::Conflict(message) => GuestRegistrationError::ConflictError(message),
            UserDatabaseError::Unexpected(message) => GuestRegistrationError::UnexpectedError(message),
        }
    }
}

impl FromSpecImpl<UserDatabaseError> for GuestRegistrationError {
    open spec fn obeys_from_spec() -> bool {
        true
    }

    open spec fn from_spec(error: UserDatabaseError) -> Self {
        match error {
            UserDatabaseError::Validation(message) => GuestRegistrationError::ValidationError(message),
            UserDatabaseError::Conflict(message) => GuestRegistrationError::ConflictError(message),
            UserDatabaseError::Unexpected(message) => GuestRegistrationError::UnexpectedError(message),
        }
    }
}

impl From<ParameterFilterError> for InventoryItemError {
    fn from(error: ParameterFilterError) -> (converted: Self) {
        match error {
            ParameterFilterError::Validation(message) => InventoryItemError::ValidationError(message),
            ParameterFilterError::Unexpected(message) => InventoryItemError::UnexpectedError(message),
        }
    }
}

impl FromSpecImpl<ParameterFilterError> for InventoryItemError {
    open spec fn obeys_from_spec() -> bool {
        true
    }

    open spec fn from_spec(error: ParameterFilterError) -> Self {
        match error {
            ParameterFilterError::Validation(message) => InventoryItemError::ValidationError(message),
            ParameterFilterError::Unexpected(message) => InventoryItemError::UnexpectedError(message),
        }
    }
}

} // verus!
