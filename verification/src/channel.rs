//! The security of a channel, `opcua_core::comms::secure_channel::SecureChannel`: what is set,
//! which keys it holds, and what it can therefore do with a chunk or a request.
//!
//! The stack panics where a channel lacks what an operation takes. What cannot be asked of a
//! channel, such as its private key, is left to the stack: the conditions on a call then ask
//! that there is an outcome. Where a channel can be asked, a `check_` function does so.

use opcua_core::comms::secure_channel::SecureChannel;
use opcua_types::MessageSecurityMode;
use vstd::prelude::*;
use vstd::utf8::encode_utf8;

use crate::stack::{le_u32, message_decoded, security_removed, RequestKind, RequestShape, Response};
use crate::status::StatusCode;

verus! {

/// Declares `opcua_core::comms::secure_channel::SecureChannel`.
#[verifier::external_type_specification]
#[verifier::external_body]
pub struct ExSecureChannel(SecureChannel);

/// The algorithms that secure a channel.
#[derive(Clone, Copy, Debug, PartialEq, Eq, Structural)]
pub enum SecurityPolicy {
    /// Not known.
    Unknown,
    /// No security.
    Unsecured,
    /// AES128/SHA256 RSA-OAEP.
    Aes128Sha256RsaOaep,
    /// Basic256/SHA256.
    Basic256Sha256,
    /// AES256/SHA256 RSA-PSS.
    Aes256Sha256RsaPss,
    /// Basic128.
    Basic128Rsa15,
    /// Basic256.
    Basic256,
}

/// What is done to the messages on a channel.
#[derive(Clone, Copy, Debug, PartialEq, Eq, Structural)]
pub enum SecurityMode {
    /// Not valid.
    Invalid,
    /// Nothing.
    Unsecured,
    /// They are signed.
    Sign,
    /// They are signed and encrypted.
    SignAndEncrypt,
}

/// The security policy of a channel.
pub uninterp spec fn policy_of(channel: SecureChannel) -> SecurityPolicy;

/// The security mode of a channel.
pub uninterp spec fn mode_of(channel: SecureChannel) -> SecurityMode;

/// The length of the signature of a message, where the security policy of a channel is known.
pub uninterp spec fn signature_size(channel: SecureChannel) -> usize;

/// Whether a channel holds keys to sign and encrypt messages with, as its security policy has
/// them.
pub uninterp spec fn keyed(channel: SecureChannel) -> bool;

/// When the token of a channel was created, in seconds since 1970.
pub uninterp spec fn token_time(channel: SecureChannel) -> i64;

/// The latest time of creation of a token, in seconds since 1970: the start of the year 100000.
pub const LATEST_TOKEN_TIME: i64 = 3_093_527_980_800;

/// The farthest time of a request from 1970, in seconds, either way. It is encoded in ticks of
/// 100 nanoseconds since 1601, which fit into 64 bits up to the year 30800.
pub const FARTHEST_REQUEST_TIME: i64 = 900_000_000_000;

/// Whether messages on the channel are signed.
pub open spec fn secured(channel: SecureChannel) -> bool {
    policy_of(channel) != SecurityPolicy::Unsecured && (mode_of(channel) == SecurityMode::Sign
        || mode_of(channel) == SecurityMode::SignAndEncrypt)
}

/// Whether a chunk starts with `OPN`: it opens or renews the channel.
pub open spec fn is_opn(data: Seq<u8>) -> bool {
    data.len() >= 3 && data.take(3) == seq![0x4Fu8, 0x50, 0x4E]
}

/// The URI of the policy without security, in UTF-8.
pub open spec fn no_security_uri() -> Seq<u8> {
    encode_utf8("http://opcfoundation.org/UA/SecurityPolicy#None"@)
}

/// Whether the security header of an `OPN` chunk starts with the URI of the policy without
/// security.
pub open spec fn names_no_security(data: Seq<u8>) -> bool {
    let uri = no_security_uri();
    &&& data.len() >= 16 + uri.len()
    &&& le_u32(data, 12) == uri.len()
    &&& data.subrange(16, (16 + uri.len()) as int) == uri
}

/// Whether what is set on a channel is enough to take the security off a chunk, or to find that
/// it is at fault: an `OPN` chunk has none, and any other chunk has at most a signature, under a
/// policy that is known, and is no shorter than that.
pub open spec fn removal_is_certain(channel: SecureChannel, data: Seq<u8>) -> bool {
    if is_opn(data) {
        names_no_security(data)
    } else {
        secured(channel) ==> policy_of(channel) != SecurityPolicy::Unknown && mode_of(channel)
            == SecurityMode::Sign && signature_size(channel) <= data.len()
    }
}

/// Whether a channel can take the security off a chunk, or find that it is at fault. Where that
/// takes the keys and certificates of the channel, only the stack can tell.
pub open spec fn may_remove_security(channel: SecureChannel, data: Seq<u8>) -> bool {
    removal_is_certain(channel, data) || exists|res: Result<Seq<u8>, StatusCode>| #[trigger]
        security_removed(channel, data, res)
}

/// Whether decoding the chunks of a message has an outcome. Decoding subtracts the client offset
/// of the channel from every time in it, which has none where that leaves the range of times, and
/// it calls the type loaders of the channel, which users provide.
pub open spec fn may_decode(channel: SecureChannel, chunks: Seq<Seq<u8>>) -> bool {
    exists|res: Result<Response, StatusCode>| #[trigger] message_decoded(channel, chunks, res)
}

/// Whether what is set on a channel is enough to split a request into chunks, or to find that
/// it cannot be split: the policy is known, an `OPN` request needs no certificate, and the
/// only time in the request is near enough to be encoded.
pub open spec fn split_is_certain(channel: SecureChannel, request: RequestShape) -> bool {
    &&& policy_of(channel) != SecurityPolicy::Unknown
    &&& request.kind != RequestKind::Other
    &&& request.kind == RequestKind::OpenSecureChannel ==> policy_of(channel)
        == SecurityPolicy::Unsecured
    &&& !request.has_additional_header
    &&& -FARTHEST_REQUEST_TIME <= request.time <= FARTHEST_REQUEST_TIME
}

/// The two channels are secured in the same way.
pub open spec fn same_security(a: SecureChannel, b: SecureChannel) -> bool {
    &&& policy_of(a) == policy_of(b)
    &&& mode_of(a) == mode_of(b)
    &&& signature_size(a) == signature_size(b)
    &&& token_time(a) == token_time(b)
}

/// Calls `SecureChannel::security_policy`.
///
/// The contract gives the result its name.
#[verifier::external_body]
pub(crate) fn security_policy(channel: &SecureChannel) -> (res: SecurityPolicy)
    ensures
        res == policy_of(*channel),
{
    match channel.security_policy() {
        opcua_crypto::SecurityPolicy::Unknown => SecurityPolicy::Unknown,
        opcua_crypto::SecurityPolicy::None => SecurityPolicy::Unsecured,
        opcua_crypto::SecurityPolicy::Aes128Sha256RsaOaep => SecurityPolicy::Aes128Sha256RsaOaep,
        opcua_crypto::SecurityPolicy::Basic256Sha256 => SecurityPolicy::Basic256Sha256,
        opcua_crypto::SecurityPolicy::Aes256Sha256RsaPss => SecurityPolicy::Aes256Sha256RsaPss,
        opcua_crypto::SecurityPolicy::Basic128Rsa15 => SecurityPolicy::Basic128Rsa15,
        opcua_crypto::SecurityPolicy::Basic256 => SecurityPolicy::Basic256,
    }
}

/// Calls `SecureChannel::security_mode`.
///
/// The contract gives the result its name.
#[verifier::external_body]
pub(crate) fn security_mode(channel: &SecureChannel) -> (res: SecurityMode)
    ensures
        res == mode_of(*channel),
{
    match channel.security_mode() {
        MessageSecurityMode::Invalid => SecurityMode::Invalid,
        MessageSecurityMode::None => SecurityMode::Unsecured,
        MessageSecurityMode::Sign => SecurityMode::Sign,
        MessageSecurityMode::SignAndEncrypt => SecurityMode::SignAndEncrypt,
    }
}

/// Calls `SecurityPolicy::symmetric_signature_size` on the security policy of the channel.
///
/// The contract gives the result its name and claims that no signature is longer than 32 bytes.
/// The call panics for an unknown policy.
#[verifier::external_body]
fn symmetric_signature_size(channel: &SecureChannel) -> (res: usize)
    requires
        policy_of(*channel) != SecurityPolicy::Unknown,
    ensures
        res == signature_size(*channel),
        res <= 32,
{
    channel.security_policy().symmetric_signature_size()
}

/// Calls `SecureChannel::token_created_at` and reads the time as a chrono timestamp.
///
/// The contract gives the result its name.
#[verifier::external_body]
fn token_created_at(channel: &SecureChannel) -> (res: i64)
    ensures
        res == token_time(*channel),
{
    channel.token_created_at().as_chrono().timestamp()
}

/// Calls `SecureChannel::derive_keys`.
///
/// The contract claims that the channel then holds keys, and that its settings stay as they
/// were. The call panics under a policy without keys. It adds the lifetime of the token to the
/// time of its creation, which panics beyond the year 262000.
#[verifier::external_body]
fn derive_keys(channel: &mut SecureChannel)
    requires
        policy_of(*old(channel)) != SecurityPolicy::Unknown,
        policy_of(*old(channel)) != SecurityPolicy::Unsecured,
        token_time(*old(channel)) <= LATEST_TOKEN_TIME,
    ensures
        keyed(*final(channel)),
        same_security(*final(channel), *old(channel)),
{
    channel.derive_keys();
}

/// Derive the keys of a channel from the nonces that were exchanged, and say whether that was
/// possible. Without keys, messages on a secured channel cannot be sent.
pub fn install_keys(channel: &mut SecureChannel) -> (res: bool)
    ensures
        res == (policy_of(*old(channel)) != SecurityPolicy::Unknown && policy_of(*old(channel))
            != SecurityPolicy::Unsecured && token_time(*old(channel)) <= LATEST_TOKEN_TIME),
        res ==> keyed(*final(channel)),
        !res ==> *final(channel) == *old(channel),
        same_security(*final(channel), *old(channel)),
{
    let policy = security_policy(channel);
    if policy != SecurityPolicy::Unknown && policy != SecurityPolicy::Unsecured
        && token_created_at(channel) <= LATEST_TOKEN_TIME {
        derive_keys(channel);
        true
    } else {
        false
    }
}

/// Whether messages on the channel are signed.
pub fn is_secured(channel: &SecureChannel) -> (res: bool)
    ensures
        res == secured(*channel),
{
    let mode = security_mode(channel);
    security_policy(channel) != SecurityPolicy::Unsecured && (mode == SecurityMode::Sign || mode
        == SecurityMode::SignAndEncrypt)
}

/// The length of the signature of a message, unless the security policy is unknown.
pub fn signature_length(channel: &SecureChannel) -> (res: Option<usize>)
    ensures
        match res {
            Some(length) => length == signature_size(*channel) && length <= 32,
            None => policy_of(*channel) == SecurityPolicy::Unknown,
        },
        policy_of(*channel) == SecurityPolicy::Unknown ==> res is None,
{
    if security_policy(channel) == SecurityPolicy::Unknown {
        None
    } else {
        Some(symmetric_signature_size(channel))
    }
}

/// Read an unsigned number from the four bytes from `at` on, lowest byte first.
fn read_u32(data: &Vec<u8>, at: usize) -> (res: u32)
    requires
        at + 4 <= data.len(),
    ensures
        res == le_u32(data@, at as int),
{
    let low: u32 = data[at] as u32 + 0x100 * (data[at + 1] as u32);
    let high: u32 = data[at + 2] as u32 + 0x100 * (data[at + 3] as u32);
    low + 0x1_0000 * high
}

/// Check that a chunk starts with `OPN`.
fn check_opn(data: &Vec<u8>) -> (res: bool)
    ensures
        res == is_opn(data@),
{
    let res = data.len() >= 3 && data[0] == 0x4F && data[1] == 0x50 && data[2] == 0x4E;
    proof {
        if res {
            assert(data@.take(3) =~= seq![0x4Fu8, 0x50, 0x4E]);
        } else if data@.len() >= 3 {
            assert(data@.take(3)[0] == data@[0]);
            assert(data@.take(3)[1] == data@[1]);
            assert(data@.take(3)[2] == data@[2]);
        }
    }
    res
}

/// Check that the security header of an `OPN` chunk starts with the URI of the policy without
/// security.
fn check_no_security(data: &Vec<u8>) -> (res: bool)
    ensures
        res == names_no_security(data@),
{
    let uri: &[u8] = "http://opcfoundation.org/UA/SecurityPolicy#None".as_bytes();
    if data.len() < 16 || data.len() - 16 < uri.len() || read_u32(data, 12) as usize != uri.len() {
        return false;
    }
    for i in 0..uri.len()
        invariant
            16 + uri@.len() <= data.len(),
            uri@ == no_security_uri(),
            forall|k: int| 0 <= k < i ==> data@[16 + k] == #[trigger] uri@[k],
    {
        if data[16 + i] != uri[i] {
            proof {
                assert(data@.subrange(16, (16 + uri@.len()) as int)[i as int] != uri@[i as int]);
            }
            return false;
        }
    }
    proof {
        assert(data@.subrange(16, (16 + uri@.len()) as int) =~= uri@);
    }
    true
}

/// Check whether what is set on a channel is enough to take the security off a chunk.
pub fn check_removal(channel: &SecureChannel, data: &Vec<u8>) -> (res: bool)
    ensures
        res == removal_is_certain(*channel, data@),
{
    if check_opn(data) {
        check_no_security(data)
    } else if is_secured(channel) {
        match signature_length(channel) {
            Some(length) => security_mode(channel) == SecurityMode::Sign && length <= data.len(),
            None => false,
        }
    } else {
        true
    }
}

/// Check whether what is set on a channel is enough to split a request into chunks.
pub fn check_split(channel: &SecureChannel, request: RequestShape) -> (res: bool)
    ensures
        res == split_is_certain(*channel, request),
{
    let policy = security_policy(channel);
    policy != SecurityPolicy::Unknown && request.kind != RequestKind::Other && (request.kind
        != RequestKind::OpenSecureChannel || policy == SecurityPolicy::Unsecured)
        && !request.has_additional_header && -FARTHEST_REQUEST_TIME <= request.time && request.time
        <= FARTHEST_REQUEST_TIME
}

/// Messages are signed exactly under a policy other than the one without security, in one of the
/// two modes that sign.
pub proof fn law_security_takes_a_policy_and_a_mode(channel: SecureChannel)
    ensures
        policy_of(channel) == SecurityPolicy::Unsecured ==> !secured(channel),
        mode_of(channel) == SecurityMode::Invalid || mode_of(channel) == SecurityMode::Unsecured
            ==> !secured(channel),
        policy_of(channel) != SecurityPolicy::Unsecured && mode_of(channel) == SecurityMode::Sign
            ==> secured(channel),
        policy_of(channel) != SecurityPolicy::Unsecured && mode_of(channel)
            == SecurityMode::SignAndEncrypt ==> secured(channel),
{
}

/// The security can be taken off any chunk of a message on a channel that does not sign, and on
/// one that signs under a known policy and does not encrypt, if the chunk is no shorter than a
/// signature. It cannot be known to come off otherwise.
pub proof fn law_signatures_come_off(channel: SecureChannel, data: Seq<u8>)
    requires
        data.len() < 3 || data[0] != 0x4F || data[1] != 0x50 || data[2] != 0x4E,
    ensures
        removal_is_certain(channel, data) <==> {
            ||| policy_of(channel) == SecurityPolicy::Unsecured
            ||| mode_of(channel) == SecurityMode::Invalid
            ||| mode_of(channel) == SecurityMode::Unsecured
            ||| policy_of(channel) != SecurityPolicy::Unknown && mode_of(channel)
                == SecurityMode::Sign && data.len() >= signature_size(channel)
        },
        removal_is_certain(channel, data) ==> may_remove_security(channel, data),
{
    if data.len() >= 3 {
        assert(data.take(3)[0] == data[0]);
        assert(data.take(3)[1] == data[1]);
        assert(data.take(3)[2] == data[2]);
    }
}

/// The security is known to come off an `OPN` chunk exactly if the chunk names the policy without
/// security, on any channel.
pub proof fn law_unsecured_opn_comes_off(channel: SecureChannel, data: Seq<u8>)
    requires
        data.len() >= 3,
        data[0] == 0x4F,
        data[1] == 0x50,
        data[2] == 0x4E,
    ensures
        ({
            let uri = encode_utf8("http://opcfoundation.org/UA/SecurityPolicy#None"@);
            removal_is_certain(channel, data) <==> {
                &&& data.len() >= 16 + uri.len()
                &&& le_u32(data, 12) == uri.len()
                &&& data.subrange(16, (16 + uri.len()) as int) == uri
            }
        }),
{
    assert(data.take(3) =~= seq![0x4Fu8, 0x50, 0x4E]);
}

/// A request to close the channel and a publish request can be split under any known policy, and
/// a request to open the channel without security, if the request has no additional header and
/// comes from a time that can be encoded.
pub proof fn law_plain_requests_can_be_split(channel: SecureChannel, request: RequestShape)
    requires
        policy_of(channel) != SecurityPolicy::Unknown,
        !request.has_additional_header,
        -900_000_000_000 <= request.time <= 900_000_000_000,
    ensures
        request.kind == RequestKind::CloseSecureChannel ==> split_is_certain(channel, request),
        request.kind == RequestKind::Publish ==> split_is_certain(channel, request),
        request.kind == RequestKind::OpenSecureChannel ==> (split_is_certain(channel, request)
            <==> policy_of(channel) == SecurityPolicy::Unsecured),
        request.kind == RequestKind::Other ==> !split_is_certain(channel, request),
{
}

/// What is asked of a channel is answered as it is set.
pub proof fn law_answers_on_channels_are_right(
    channel: SecureChannel,
    is_signed: bool,
    length: Option<usize>,
)
    requires
        call_ensures(is_secured, (&channel,), is_signed),
        call_ensures(signature_length, (&channel,), length),
    ensures
        is_signed <==> policy_of(channel) != SecurityPolicy::Unsecured && (mode_of(channel)
            == SecurityMode::Sign || mode_of(channel) == SecurityMode::SignAndEncrypt),
        length is None <==> policy_of(channel) == SecurityPolicy::Unknown,
        length matches Some(n) ==> n == signature_size(channel) && n <= 32,
{
}

/// The checks on a chunk and on a request tell exactly whether what is set on the channel is
/// enough.
pub proof fn law_checks_on_channels_are_right(
    channel: SecureChannel,
    data: Vec<u8>,
    comes_off: bool,
    request: RequestShape,
    splits: bool,
)
    requires
        call_ensures(check_removal, (&channel, &data), comes_off),
        call_ensures(check_split, (&channel, request), splits),
    ensures
        data@.len() < 3 || data@[0] != 0x4F || data@[1] != 0x50 || data@[2] != 0x4E ==> (comes_off
            <==> {
            ||| policy_of(channel) == SecurityPolicy::Unsecured
            ||| mode_of(channel) == SecurityMode::Invalid
            ||| mode_of(channel) == SecurityMode::Unsecured
            ||| policy_of(channel) != SecurityPolicy::Unknown && mode_of(channel)
                == SecurityMode::Sign && data@.len() >= signature_size(channel)
        }),
        splits <==> {
            &&& policy_of(channel) != SecurityPolicy::Unknown
            &&& request.kind == RequestKind::CloseSecureChannel || request.kind
                == RequestKind::Publish || (request.kind == RequestKind::OpenSecureChannel
                && policy_of(channel) == SecurityPolicy::Unsecured)
            &&& !request.has_additional_header
            &&& -900_000_000_000 <= request.time <= 900_000_000_000
        },
{
    if data@.len() < 3 || data@[0] != 0x4F || data@[1] != 0x50 || data@[2] != 0x4E {
        law_signatures_come_off(channel, data@);
    }
}

/// Keys are derived exactly where the policy has any and the token is not from the far future.
/// Then the channel has keys, and otherwise it is left alone. Its settings stay in either case.
pub proof fn law_keys_are_derived_where_possible()
    ensures
        forall|channel: &mut SecureChannel, res: bool| #[trigger]
            call_ensures(install_keys, (channel,), res) ==> {
                &&& res <==> policy_of(*channel) != SecurityPolicy::Unknown && policy_of(*channel)
                    != SecurityPolicy::Unsecured && token_time(*channel) <= 3_093_527_980_800
                &&& res ==> keyed(*final(channel))
                &&& !res ==> *final(channel) == *channel
                &&& policy_of(*final(channel)) == policy_of(*channel)
                &&& mode_of(*final(channel)) == mode_of(*channel)
            },
{
}

} // verus!
