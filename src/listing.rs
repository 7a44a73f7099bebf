use vstd::prelude::*;

use crate::model::{PhoneBackup, User};
use crate::snapshot::{backup_users, selection_users};

verus! {

/// The entries of a listing that resolved, in listing order.
pub open spec fn resolved<T, E>(entries: Seq<Result<T, E>>) -> Seq<T>
    decreases entries.len(),
{
    if entries.len() == 0 {
        Seq::empty()
    } else {
        match entries.last() {
            Ok(t) => resolved(entries.drop_last()).push(t),
            Err(_) => resolved(entries.drop_last()),
        }
    }
}

/// Lists the stored snapshots of a directory, best effort: a directory that
/// could not be opened (`Err`) lists nothing, and an entry that did not
/// resolve is skipped while all the others are kept, in listing order.
pub fn list_available_backups<T, E>(listing: Result<Vec<Result<T, E>>, E>) -> (r: Vec<T>)
    ensures
        listing is Err ==> r@.len() == 0,
        listing is Ok ==> r@ == resolved(listing->Ok_0@),
{
    match listing {
        Err(_) => Vec::new(),
        Ok(mut entries) => {
            let ghost all = entries@;
            let mut out: Vec<T> = Vec::new();
            let ghost mut k: int = 0;
            while entries.len() > 0
                invariant
                    0 <= k <= all.len(),
                    entries@ == all.subrange(k, all.len() as int),
                    out@ == resolved(all.subrange(0, k)),
                decreases entries.len(),
            {
                let entry = entries.remove(0);
                proof {
                    assert(entry == all[k]);
                    assert(all.subrange(0, k + 1).drop_last() =~= all.subrange(0, k));
                    assert(entries@ =~= all.subrange(k + 1, all.len() as int));
                    k = k + 1;
                }
                match entry {
                    Ok(t) => out.push(t),
                    Err(_) => {},
                }
            }
            proof {
                assert(all.subrange(0, k) =~= all);
            }
            out
        },
    }
}

/// The users of a snapshot for selection: a snapshot that could not be read
/// (`Err`) gives none; otherwise one user per recorded user, in stored order,
/// with its recorded id and index 0.
pub fn list_available_backup_user<E>(loaded: Result<PhoneBackup, E>) -> (r: Vec<User>)
    ensures
        loaded is Err ==> r@.len() == 0,
        loaded is Ok ==> r@ == selection_users(loaded->Ok_0),
{
    match loaded {
        Ok(backup) => backup_users(&backup),
        Err(_) => Vec::new(),
    }
}

/// A listing keeps exactly the entries that resolved: its length is the
/// number of `Ok` entries, and with the unresolved ones it makes up the
/// whole listing.
pub proof fn lemma_listing_keeps_resolved<T, E>(entries: Seq<Result<T, E>>)
    ensures
        resolved(entries).len() == entries.filter(|e: Result<T, E>| e is Ok).len(),
        resolved(entries).len() + entries.filter(|e: Result<T, E>| e is Err).len()
            == entries.len(),
    decreases entries.len(),
{
    if entries.len() > 0 {
        let rest = entries.drop_last();
        lemma_listing_keeps_resolved(rest);
        let ok = |e: Result<T, E>| e is Ok;
        let err = |e: Result<T, E>| e is Err;
        reveal(Seq::filter);
        assert(entries.filter(ok) == if ok(entries.last()) {
            rest.filter(ok).push(entries.last())
        } else {
            rest.filter(ok)
        });
        assert(entries.filter(err) == if err(entries.last()) {
            rest.filter(err).push(entries.last())
        } else {
            rest.filter(err)
        });
    }
}

} // verus!
