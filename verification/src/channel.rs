//! The byte channel between the two cores.
//!
//! The channel is a `bbqueue` buffer of 128 bytes, split into one writing end
//! and one reading end. Each end is owned by one core, and nothing here
//! blocks: a write that finds no room and a read that finds no data come
//! back at once.
//!
//! Neither end can see what the other one does, so the contracts speak of
//! each end by its own history: the bytes that went in through a writing
//! end, and the bytes that came out through a reading end. That the second
//! is always a prefix of the first is the queue's promise, not something
//! proved here.

use vstd::prelude::*;

verus! {

/// Bytes that the channel's buffer holds.
pub const CHANNEL_CAPACITY: usize = 128;

#[verifier::external_type_specification]
#[verifier::external_body]
pub struct ExProducer<'a, const N: usize>(bbqueue::Producer<'a, N>);

#[verifier::external_type_specification]
#[verifier::external_body]
pub struct ExConsumer<'a, const N: usize>(bbqueue::Consumer<'a, N>);

#[verifier::external_type_specification]
#[verifier::external_body]
pub struct ExQueueError(bbqueue::Error);

/// Every byte that has been committed through this writing end, oldest first.
pub uninterp spec fn committed(producer: bbqueue::Producer<'_, 128>) -> Seq<u8>;

/// Every byte that has been released through this reading end, oldest first.
pub uninterp spec fn released(consumer: bbqueue::Consumer<'_, 128>) -> Seq<u8>;

/// `Producer::grant_exact` for as many bytes as `bytes` has, then the bytes
/// copied into the grant and `GrantW::commit` of the whole grant.
///
/// Trusted: where the grant is given, all of `bytes` is committed behind what
/// was committed before; where it is refused, nothing is committed. A grant
/// of more bytes than the buffer has is always refused. Whether a smaller one
/// is given depends on how far the reading end has got, so nothing is claimed
/// about that.
#[verifier::external_body]
fn push_exact(producer: &mut bbqueue::Producer<'_, 128>, bytes: &[u8]) -> (outcome: Result<
    (),
    bbqueue::Error,
>)
    ensures
        outcome is Ok ==> committed(*final(producer)) == committed(*old(producer)) + bytes@,
        outcome is Err ==> committed(*final(producer)) == committed(*old(producer)),
        bytes@.len() > CHANNEL_CAPACITY ==> outcome is Err,
{
    let mut grant = producer.grant_exact(bytes.len())?;
    grant.buf().copy_from_slice(bytes);
    grant.commit(bytes.len());
    Ok(())
}

/// `Consumer::read`, then the grant's bytes copied out and `GrantR::release`
/// of the whole grant.
///
/// Trusted: a grant is never empty and never longer than the buffer, and the
/// bytes handed out are released behind what was released before; where no
/// grant is given, nothing is released. A grant holds committed bytes that
/// lie in one piece, which need not be all that is committed.
#[verifier::external_body]
fn pop_ready(consumer: &mut bbqueue::Consumer<'_, 128>) -> (outcome: Result<
    Vec<u8>,
    bbqueue::Error,
>)
    ensures
        outcome matches Ok(bytes) ==> 0 < bytes@.len() <= CHANNEL_CAPACITY && released(
            *final(consumer),
        ) == released(*old(consumer)) + bytes@,
        outcome is Err ==> released(*final(consumer)) == released(*old(consumer)),
{
    let grant = consumer.read()?;
    let bytes = grant.buf().to_vec();
    grant.release(bytes.len());
    Ok(bytes)
}

/// Puts `bytes` into the channel, all of them or none.
///
/// Returns whether the channel took them. A write that finds no room fails
/// at once and leaves the channel as it was; one of more bytes than the
/// channel can hold never finds room.
pub fn try_write(producer: &mut bbqueue::Producer<'_, 128>, bytes: &[u8]) -> (accepted: bool)
    ensures
        accepted ==> committed(*final(producer)) == committed(*old(producer)) + bytes@,
        !accepted ==> committed(*final(producer)) == committed(*old(producer)),
        bytes@.len() > CHANNEL_CAPACITY ==> !accepted,
{
    match push_exact(producer, bytes) {
        Ok(_) => true,
        Err(_) => false,
    }
}

/// Takes the next bytes out of the channel, if any are ready.
///
/// What comes back has left the channel. `None` means that nothing was
/// ready; the channel is then as it was.
pub fn try_read(consumer: &mut bbqueue::Consumer<'_, 128>) -> (taken: Option<Vec<u8>>)
    ensures
        taken matches Some(bytes) ==> 0 < bytes@.len() <= CHANNEL_CAPACITY && released(
            *final(consumer),
        ) == released(*old(consumer)) + bytes@,
        taken is None ==> released(*final(consumer)) == released(*old(consumer)),
{
    match pop_ready(consumer) {
        Ok(bytes) => Some(bytes),
        Err(_) => None,
    }
}

} // verus!
