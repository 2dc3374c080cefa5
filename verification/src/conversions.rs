//! How a failure travels up: the laws that relate an error to the error of
//! the operation it surfaces in. Unless stated otherwise the caller sees the
//! same status and the same message the lower layer chose.
use crate::errors::{
    AcceptPairingError, AssignAttachmentError, BatchDeleteInventoryItemsError,
    BatchUpdateInventoryItemsError, BorrowRequestError, CreateInventoryItemsError,
    CreatePairingCodeError, CreateTrustError, DeleteInventoryItemError, FederationDatabaseError,
    FederationSecurityError, GuestRegistrationError, InboundFederationError, InventoryItemError,
    InventoryItemDatabaseError, MergeGuestLinkError, MergeInventoryItemsError, ParameterFilterError,
    ProxyFederationError, PublicDataError, RevokeTrustError, SplitInventoryItemError,
    UpdateInventoryItemError, UserDatabaseError,
};
use vstd::prelude::*;
use vstd::std_specs::convert::FromSpec;

verus! {

/// Every inventory operation but deletion answers a failed statement with
/// the status and message the statement's failure was given.
pub proof fn inventory_operations_keep_statement_failures(e: InventoryItemDatabaseError)
    ensures
        <BatchDeleteInventoryItemsError as FromSpec<InventoryItemDatabaseError>>::from_spec(e).spec_status_code() == e.spec_status_code(),
        <BatchDeleteInventoryItemsError as FromSpec<InventoryItemDatabaseError>>::from_spec(e).spec_message() == e.spec_message(),
        <BatchUpdateInventoryItemsError as FromSpec<InventoryItemDatabaseError>>::from_spec(e).spec_status_code() == e.spec_status_code(),
        <BatchUpdateInventoryItemsError as FromSpec<InventoryItemDatabaseError>>::from_spec(e).spec_message() == e.spec_message(),
        <CreateInventoryItemsError as FromSpec<InventoryItemDatabaseError>>::from_spec(e).spec_status_code() == e.spec_status_code(),
        <CreateInventoryItemsError as FromSpec<InventoryItemDatabaseError>>::from_spec(e).spec_message() == e.spec_message(),
        <MergeInventoryItemsError as FromSpec<InventoryItemDatabaseError>>::from_spec(e).spec_status_code() == e.spec_status_code(),
        <MergeInventoryItemsError as FromSpec<InventoryItemDatabaseError>>::from_spec(e).spec_message() == e.spec_message(),
        <SplitInventoryItemError as FromSpec<InventoryItemDatabaseError>>::from_spec(e).spec_status_code() == e.spec_status_code(),
        <SplitInventoryItemError as FromSpec<InventoryItemDatabaseError>>::from_spec(e).spec_message() == e.spec_message(),
        <UpdateInventoryItemError as FromSpec<InventoryItemDatabaseError>>::from_spec(e).spec_status_code() == e.spec_status_code(),
        <UpdateInventoryItemError as FromSpec<InventoryItemDatabaseError>>::from_spec(e).spec_message() == e.spec_message(),
{
}

/// Deleting an item answers a broken rule as a conflict with the item's
/// state (409), not as bad input; every other failure keeps its status. The
/// message is kept either way.
pub proof fn deletion_answers_broken_rules_as_conflicts(e: InventoryItemDatabaseError)
    ensures
        <DeleteInventoryItemError as FromSpec<InventoryItemDatabaseError>>::from_spec(e).spec_status_code()
            == (if e is Validation { 409u16 } else { e.spec_status_code() }),
        <DeleteInventoryItemError as FromSpec<InventoryItemDatabaseError>>::from_spec(e).spec_message() == e.spec_message(),
{
}

/// Creating items answers an attachment's upload that does not exist as bad
/// input (400) rather than a missing item; every other failure keeps its
/// status. The message is kept either way.
pub proof fn missing_upload_is_bad_input(e: AssignAttachmentError)
    ensures
        <CreateInventoryItemsError as FromSpec<AssignAttachmentError>>::from_spec(e).spec_status_code()
            == (if e is NotFound { 400u16 } else { e.spec_status_code() }),
        <CreateInventoryItemsError as FromSpec<AssignAttachmentError>>::from_spec(e).spec_message() == e.spec_message(),
{
}

/// Every federation route answers a failed statement with the status and
/// message the statement's failure was given.
pub proof fn federation_routes_keep_statement_failures(e: FederationDatabaseError)
    ensures
        <AcceptPairingError as FromSpec<FederationDatabaseError>>::from_spec(e).spec_status_code() == e.spec_status_code(),
        <AcceptPairingError as FromSpec<FederationDatabaseError>>::from_spec(e).spec_message() == e.spec_message(),
        <CreatePairingCodeError as FromSpec<FederationDatabaseError>>::from_spec(e).spec_status_code() == e.spec_status_code(),
        <CreatePairingCodeError as FromSpec<FederationDatabaseError>>::from_spec(e).spec_message() == e.spec_message(),
        <CreateTrustError as FromSpec<FederationDatabaseError>>::from_spec(e).spec_status_code() == e.spec_status_code(),
        <CreateTrustError as FromSpec<FederationDatabaseError>>::from_spec(e).spec_message() == e.spec_message(),
        <MergeGuestLinkError as FromSpec<FederationDatabaseError>>::from_spec(e).spec_status_code() == e.spec_status_code(),
        <MergeGuestLinkError as FromSpec<FederationDatabaseError>>::from_spec(e).spec_message() == e.spec_message(),
        <RevokeTrustError as FromSpec<FederationDatabaseError>>::from_spec(e).spec_status_code() == e.spec_status_code(),
        <RevokeTrustError as FromSpec<FederationDatabaseError>>::from_spec(e).spec_message() == e.spec_message(),
        <InboundFederationError as FromSpec<FederationDatabaseError>>::from_spec(e).spec_status_code() == e.spec_status_code(),
        <InboundFederationError as FromSpec<FederationDatabaseError>>::from_spec(e).spec_message() == e.spec_message(),
{
}

/// While an inbound request is verified, the only statements issued record
/// its nonce: a conflict there is a replayed request and is answered 401; a
/// rejected write is this server's problem and is answered 500.
pub proof fn replayed_nonce_is_unauthorized(e: FederationDatabaseError)
    ensures
        <FederationSecurityError as FromSpec<FederationDatabaseError>>::from_spec(e).spec_status_code()
            == (if e is Conflict { 401u16 } else { 500u16 }),
        <FederationSecurityError as FromSpec<FederationDatabaseError>>::from_spec(e).spec_message() == e.spec_message(),
{
}

/// An inbound request keeps the status and message of every failure met
/// while proving it genuine, reading public data or serving a borrow.
pub proof fn inbound_requests_keep_failures(
    security: FederationSecurityError,
    read: PublicDataError,
    borrow: BorrowRequestError,
)
    ensures
        <InboundFederationError as FromSpec<FederationSecurityError>>::from_spec(security).spec_status_code() == security.spec_status_code(),
        <InboundFederationError as FromSpec<FederationSecurityError>>::from_spec(security).spec_message() == security.spec_message(),
        <InboundFederationError as FromSpec<PublicDataError>>::from_spec(read).spec_status_code() == read.spec_status_code(),
        <InboundFederationError as FromSpec<PublicDataError>>::from_spec(read).spec_message() == read.spec_message(),
        <InboundFederationError as FromSpec<BorrowRequestError>>::from_spec(borrow).spec_status_code() == borrow.spec_status_code(),
        <InboundFederationError as FromSpec<BorrowRequestError>>::from_spec(borrow).spec_message() == borrow.spec_message(),
{
}

/// A relayed read refused by the path parser is answered as the parser
/// answered it.
pub proof fn relayed_reads_keep_path_failures(e: PublicDataError)
    ensures
        <ProxyFederationError as FromSpec<PublicDataError>>::from_spec(e).spec_status_code() == e.spec_status_code(),
        <ProxyFederationError as FromSpec<PublicDataError>>::from_spec(e).spec_message() == e.spec_message(),
{
}

/// Registration answers a failed user statement, and a listing a parameter
/// filter it could not read, with the same status and message.
pub proof fn registration_and_listing_keep_failures(user: UserDatabaseError, filter: ParameterFilterError)
    ensures
        <GuestRegistrationError as FromSpec<UserDatabaseError>>::from_spec(user).spec_status_code() == user.spec_status_code(),
        <GuestRegistrationError as FromSpec<UserDatabaseError>>::from_spec(user).spec_message() == user.spec_message(),
        <InventoryItemError as FromSpec<ParameterFilterError>>::from_spec(filter).spec_status_code() == filter.spec_status_code(),
        <InventoryItemError as FromSpec<ParameterFilterError>>::from_spec(filter).spec_message() == filter.spec_message(),
{
}

} // verus!
