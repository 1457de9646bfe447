//! The acquisition of a port from a source of candidates.

use vstd::prelude::*;
use crate::binder::{binds, free, in_use, Loopback, Reservable, Tcp, Udp};
use crate::error::Error;
use crate::ports::{lemma_advanced_owes_rest, ProvidePorts, Singleton};
use crate::reservation::ReservedPort;

verus! {

/// Whether each of the first `n` candidates can be found in use.
pub open spec fn refused<T: Reservable>(candidates: Seq<u16>, n: int) -> bool {
    forall|j: int| 0 <= j < n ==> binds::<T>(#[trigger] candidates[j], None)
}

/// Whether `result` is what an acquisition over `candidates` can come to:
/// the reservation of the first candidate that was not found in use, or,
/// when all were in use, the count of them.
pub open spec fn acquired<T: Reservable>(
    candidates: Seq<u16>,
    result: Result<ReservedPort<T::Res>, Error>,
) -> bool {
    match result {
        Ok(reserved) => exists|i: int|
            0 <= i < candidates.len() && #[trigger] refused::<T>(candidates, i) && binds::<T>(
                candidates[i],
                Some(reserved),
            ),
        Err(e) => e == Error::Exhausted(candidates.len() as usize) && refused::<T>(
            candidates,
            candidates.len() as int,
        ),
    }
}

/// Reserves the first of the candidates of `ports` that the transport `T`
/// can bind. At most as many attempts are made as `ports` declares
/// candidates; when all of them are in use, that number is the error.
pub fn reserve_port<T, P>(ports: P) -> (r: Result<ReservedPort<T::Res>, Error>) where
    T: Reservable,
    P: ProvidePorts,

    ensures
        acquired::<T>(ports.candidates(), r),
{
    let mut source = ports;
    let ghost candidates = ports.candidates();
    let ports_count = source.length();
    let mut attempts: usize = 0;
    loop
        invariant
            candidates == ports.candidates(),
            ports_count == candidates.len(),
            attempts <= ports_count,
            candidates.skip(attempts as int).is_prefix_of(source.candidates()),
            refused::<T>(candidates, attempts as int),
        decreases ports_count - attempts,
    {
        if attempts >= ports_count {
            return Err(Error::Exhausted(attempts));
        }
        let ghost before = source.candidates();
        let port = source.get_port();
        proof {
            lemma_advanced_owes_rest(candidates, attempts as int, before, source.candidates());
        }
        match T::reserve(port) {
            Some(x) => {
                return Ok(x);
            },
            None => (),
        }
        attempts += 1;
    }
}

/// Reserves a UDP port that the host `H` picks: the one candidate is the
/// wildcard port 0.
#[inline]
pub fn reserve_udp_port<H: Loopback>() -> (r: Result<ReservedPort<H::Udp>, Error>)
    ensures
        acquired::<Udp<H>>(seq![0u16], r),
{
    reserve_port::<Udp<H>, Singleton>(Singleton(0))
}

/// Reserves a TCP port that the host `H` picks: the one candidate is the
/// wildcard port 0.
#[inline]
pub fn reserve_tcp_port<H: Loopback>() -> (r: Result<ReservedPort<H::Tcp>, Error>)
    ensures
        acquired::<Tcp<H>>(seq![0u16], r),
{
    reserve_port::<Tcp<H>, Singleton>(Singleton(0))
}

/// The first free candidate wins: when the candidates before the `i`-th are
/// all in use and the `i`-th is free, the acquisition succeeds, and with a
/// reservation that binding the `i`-th candidate gave.
pub proof fn lemma_first_free_wins<T: Reservable>(
    candidates: Seq<u16>,
    result: Result<ReservedPort<T::Res>, Error>,
    i: int,
)
    requires
        acquired::<T>(candidates, result),
        0 <= i < candidates.len(),
        forall|j: int| 0 <= j < i ==> in_use::<T>(#[trigger] candidates[j]),
        free::<T>(candidates[i]),
    ensures
        result matches Ok(reserved) && binds::<T>(candidates[i], Some(reserved)),
{
    match result {
        Ok(reserved) => {
            let k = choose|k: int|
                0 <= k < candidates.len() && #[trigger] refused::<T>(candidates, k) && binds::<T>(
                    candidates[k],
                    Some(reserved),
                );
            if k < i {
                assert(in_use::<T>(candidates[k]));
            } else if k > i {
                assert(binds::<T>(candidates[i], None));
            }
        },
        Err(_) => {
            assert(binds::<T>(candidates[i], None));
        },
    }
}

/// When all candidates but the last are in use and the last is free, the
/// acquisition succeeds on the last one, after as many attempts as there are
/// candidates.
pub proof fn lemma_last_candidate_wins<T: Reservable>(
    candidates: Seq<u16>,
    result: Result<ReservedPort<T::Res>, Error>,
)
    requires
        acquired::<T>(candidates, result),
        candidates.len() > 0,
        forall|j: int| 0 <= j < candidates.len() - 1 ==> in_use::<T>(#[trigger] candidates[j]),
        free::<T>(candidates.last()),
    ensures
        result matches Ok(reserved) && binds::<T>(candidates.last(), Some(reserved)),
{
    lemma_first_free_wins::<T>(candidates, result, candidates.len() - 1);
}

/// When every candidate is in use, the acquisition fails, and the error
/// counts one attempt for each candidate.
pub proof fn lemma_all_in_use_exhausts<T: Reservable>(
    candidates: Seq<u16>,
    result: Result<ReservedPort<T::Res>, Error>,
)
    requires
        acquired::<T>(candidates, result),
        forall|j: int| 0 <= j < candidates.len() ==> in_use::<T>(#[trigger] candidates[j]),
    ensures
        result == Err::<ReservedPort<T::Res>, Error>(Error::Exhausted(candidates.len() as usize)),
{
    if let Ok(reserved) = result {
        let k = choose|k: int|
            0 <= k < candidates.len() && #[trigger] refused::<T>(candidates, k) && binds::<T>(
                candidates[k],
                Some(reserved),
            );
        assert(in_use::<T>(candidates[k]));
    }
}

/// When the one candidate of a source is in use, the acquisition fails after
/// one attempt.
pub proof fn lemma_single_in_use_exhausts<T: Reservable>(
    port: u16,
    result: Result<ReservedPort<T::Res>, Error>,
)
    requires
        acquired::<T>(seq![port], result),
        in_use::<T>(port),
    ensures
        result == Err::<ReservedPort<T::Res>, Error>(Error::Exhausted(1)),
{
    lemma_all_in_use_exhausts::<T>(seq![port], result);
}

} // verus!
