//! The session table as this layer sees it, and the two revocation
//! operations: delete every session of a user, and delete the session keyed
//! by a refresh token. Both are idempotent deletes by key that report how
//! many rows they removed; deleting something absent removes zero rows and
//! is not an error.

use vstd::prelude::*;

use crate::strutil::{bytes_eq, str_eq};
use crate::users::UserId;

verus! {

/// Mathematical view of a session row.
pub ghost struct SessionSpec {
    pub user_id: Seq<u8>,
    pub refresh_token: Seq<char>,
}

/// A session row: the owning user and the opaque refresh token that keys it.
pub struct Session {
    pub user_id: UserId,
    pub refresh_token: String,
}

impl View for Session {
    type V = SessionSpec;

    open spec fn view(&self) -> SessionSpec {
        SessionSpec { user_id: self.user_id@, refresh_token: self.refresh_token@ }
    }
}

/// The rows of a session sequence, as their views.
pub open spec fn views_of(s: Seq<Session>) -> Seq<SessionSpec> {
    s.map_values(|x: Session| x@)
}

/// A row that survives deletion by refresh token.
pub open spec fn keeps_token(t: Seq<char>) -> spec_fn(SessionSpec) -> bool {
    |s: SessionSpec| s.refresh_token != t
}

/// A row that survives deletion by user id.
pub open spec fn keeps_user(u: Seq<u8>) -> spec_fn(SessionSpec) -> bool {
    |s: SessionSpec| s.user_id != u
}

/// Some row carries this refresh token.
pub open spec fn has_token(s: Seq<SessionSpec>, t: Seq<char>) -> bool {
    exists|i: int| 0 <= i < s.len() && s[i].refresh_token == t
}

proof fn lemma_filter_push(s: Seq<SessionSpec>, pred: spec_fn(SessionSpec) -> bool, x: SessionSpec)
    ensures
        s.push(x).filter(pred) == if pred(x) {
            s.filter(pred).push(x)
        } else {
            s.filter(pred)
        },
{
    reveal(Seq::filter);
    assert(s.push(x).drop_last() =~= s);
}

/// The session table: at most one row per refresh token.
pub struct SessionStore {
    sessions: Vec<Session>,
}

impl View for SessionStore {
    type V = Seq<SessionSpec>;

    closed spec fn view(&self) -> Seq<SessionSpec> {
        views_of(self.sessions@)
    }
}

impl SessionStore {
    /// Well-formedness: a refresh token keys at most one session row.
    /// Constructors establish it and every method preserves it.
    pub closed spec fn wf(&self) -> bool {
        forall|i: int, j: int|
            0 <= i < j < self@.len() ==> self@[i].refresh_token != self@[j].refresh_token
    }

    /// An empty table.
    pub fn new() -> (store: SessionStore)
        ensures
            store.wf(),
            store@ == Seq::<SessionSpec>::empty(),
    {
        let store = SessionStore { sessions: Vec::new() };
        proof {
            assert(store@ =~= Seq::<SessionSpec>::empty());
        }
        store
    }

    /// How many session rows the table holds.
    pub fn len(&self) -> (n: usize)
        ensures
            n == self@.len(),
    {
        self.sessions.len()
    }

    /// Whether some row is keyed by this refresh token.
    pub fn contains_token(&self, refresh_token: &str) -> (r: bool)
        ensures
            r == has_token(self@, refresh_token@),
    {
        let n = self.sessions.len();
        let mut i: usize = 0;
        while i < n
            invariant
                i <= n,
                n == self.sessions@.len(),
                forall|j: int|
                    0 <= j < i ==> views_of(self.sessions@)[j].refresh_token != refresh_token@,
            decreases n - i,
        {
            if str_eq(self.sessions[i].refresh_token.as_str(), refresh_token) {
                proof {
                    assert(self@[i as int].refresh_token == refresh_token@);
                }
                return true;
            }
            i += 1;
        }
        false
    }

    /// Inserts a session row; rejected when its refresh token already keys a
    /// row, since the token must identify at most one session.
    pub fn insert(&mut self, session: Session) -> (r: Result<(), Session>)
        requires
            old(self).wf(),
        ensures
            final(self).wf(),
            !has_token(old(self)@, session@.refresh_token) ==> (r is Ok && final(self)@ == old(
                self,
            )@.push(session@)),
            has_token(old(self)@, session@.refresh_token) ==> (r == Err::<(), Session>(session)
                && final(self)@ == old(self)@),
    {
        let n = self.sessions.len();
        let mut i: usize = 0;
        while i < n
            invariant
                i <= n,
                n == self.sessions@.len(),
                self.sessions@ == old(self).sessions@,
                old(self).wf(),
                forall|j: int| 0 <= j < i ==> old(self)@[j].refresh_token != session@.refresh_token,
            decreases n - i,
        {
            if str_eq(
                self.sessions[i].refresh_token.as_str(),
                session.refresh_token.as_str(),
            ) {
                proof {
                    assert(old(self)@[i as int].refresh_token == session@.refresh_token);
                }
                return Err(session);
            }
            i += 1;
        }
        proof {
            assert(views_of(self.sessions@.push(session)) =~= views_of(self.sessions@).push(
                session@,
            ));
            assert(!has_token(old(self)@, session@.refresh_token));
        }
        self.sessions.push(session);
        proof {
            let v = self@;
            assert forall|a: int, b: int| 0 <= a < b < v.len() implies v[a].refresh_token
                != v[b].refresh_token by {
                if b == v.len() - 1 {
                    assert(v[a] == old(self)@[a]);
                    assert(v[b] == session@);
                } else {
                    assert(v[a] == old(self)@[a]);
                    assert(v[b] == old(self)@[b]);
                }
            }
        }
        Ok(())
    }

    /// Deletes every session row whose user column equals `user_id` and
    /// returns how many rows were removed — zero when the user had none,
    /// which is not an error.
    #[verifier::loop_isolation(false)]
    pub fn delete_all_sessions_for_user(&mut self, user_id: &UserId) -> (count: u64)
        requires
            old(self).wf(),
        ensures
            final(self).wf(),
            final(self)@ == old(self)@.filter(keeps_user(user_id@)),
            count as int == old(self)@.len() - final(self)@.len(),
            count == 0 <==> (forall|i: int|
                0 <= i < old(self)@.len() ==> old(self)@[i].user_id != user_id@),
    {
        let ghost vorig = self@;
        let ghost pred = keeps_user(user_id@);
        let orig_len: usize = self.sessions.len();
        let mut kept: Vec<Session> = Vec::new();
        let mut removed: usize = 0;
        proof {
            assert(vorig.len() == orig_len as int);
            assert(vorig.subrange(0, 0).filter(pred) =~= views_of(kept@)) by {
                reveal(Seq::filter);
            }
            assert(vorig.subrange(0, vorig.len() as int) =~= vorig);
        }
        while self.sessions.len() > 0
            invariant
                self.sessions@.len() <= vorig.len(),
                vorig.len() <= usize::MAX,
                views_of(self.sessions@) == vorig.subrange(
                    vorig.len() - self.sessions@.len(),
                    vorig.len() as int,
                ),
                views_of(kept@) == vorig.subrange(
                    0,
                    vorig.len() - self.sessions@.len(),
                ).filter(pred),
                removed as int == (vorig.len() - self.sessions@.len()) - views_of(kept@).len(),
                removed == 0 <==> (forall|j: int|
                    0 <= j < vorig.len() - self.sessions@.len() ==> vorig[j].user_id != user_id@),
            decreases self.sessions@.len(),
        {
            let ghost k = vorig.len() - self.sessions@.len();
            let ghost prev = self.sessions@;
            let s = self.sessions.remove(0);
            proof {
                assert(views_of(self.sessions@) =~= views_of(prev).remove(0));
                assert(views_of(self.sessions@) =~= vorig.subrange(k + 1, vorig.len() as int));
                assert(s@ == views_of(prev)[0]);
                assert(s@ == vorig[k]);
                assert(vorig.subrange(0, k + 1) =~= vorig.subrange(0, k).push(vorig[k]));
                lemma_filter_push(vorig.subrange(0, k), pred, vorig[k]);
            }
            if bytes_eq(s.user_id.as_bytes().as_slice(), user_id.as_bytes().as_slice()) {
                proof {
                    assert(!pred(vorig[k]));
                    assert(vorig.subrange(0, k + 1).filter(pred) == vorig.subrange(0, k).filter(
                        pred,
                    ));
                }
                removed += 1;
            } else {
                proof {
                    assert(pred(vorig[k]));
                    assert(views_of(kept@.push(s)) =~= views_of(kept@).push(s@));
                    assert(vorig.subrange(0, k + 1).filter(pred) == vorig.subrange(0, k).filter(
                        pred,
                    ).push(vorig[k]));
                }
                kept.push(s);
            }
        }
        proof {
            assert(vorig.subrange(0, vorig.len() as int) =~= vorig);
            assert(vorig.subrange(vorig.len() - self.sessions@.len(), vorig.len() as int)
                =~= views_of(self.sessions@));
        }
        self.sessions = kept;
        proof {
            lemma_wf_after_filter(vorig, pred);
        }
        removed as u64
    }

    /// Deletes the session row keyed by `refresh_token` and returns how many
    /// rows were removed: one when the token was known, zero when it was
    /// unknown — which is not an error.
    #[verifier::loop_isolation(false)]
    pub fn delete_session(&mut self, refresh_token: &str) -> (count: u64)
        requires
            old(self).wf(),
        ensures
            final(self).wf(),
            final(self)@ == old(self)@.filter(keeps_token(refresh_token@)),
            count as int == old(self)@.len() - final(self)@.len(),
            count == 1 <==> has_token(old(self)@, refresh_token@),
            count == 0 <==> !has_token(old(self)@, refresh_token@),
    {
        let ghost vorig = self@;
        let ghost pred = keeps_token(refresh_token@);
        let orig_len: usize = self.sessions.len();
        let mut kept: Vec<Session> = Vec::new();
        let mut removed: usize = 0;
        proof {
            assert(vorig.len() == orig_len as int);
            assert(vorig.subrange(0, 0).filter(pred) =~= views_of(kept@)) by {
                reveal(Seq::filter);
            }
            assert(vorig.subrange(0, vorig.len() as int) =~= vorig);
        }
        while self.sessions.len() > 0
            invariant
                self.sessions@.len() <= vorig.len(),
                vorig.len() <= usize::MAX,
                forall|i: int, j: int|
                    0 <= i < j < vorig.len() ==> vorig[i].refresh_token != vorig[j].refresh_token,
                views_of(self.sessions@) == vorig.subrange(
                    vorig.len() - self.sessions@.len(),
                    vorig.len() as int,
                ),
                views_of(kept@) == vorig.subrange(
                    0,
                    vorig.len() - self.sessions@.len(),
                ).filter(pred),
                removed as int == (vorig.len() - self.sessions@.len()) - views_of(kept@).len(),
                removed <= 1,
                removed == 1 <==> has_token(
                    vorig.subrange(0, vorig.len() - self.sessions@.len()),
                    refresh_token@,
                ),
            decreases self.sessions@.len(),
        {
            let ghost k = vorig.len() - self.sessions@.len();
            let ghost prev = self.sessions@;
            let s = self.sessions.remove(0);
            proof {
                assert(views_of(self.sessions@) =~= views_of(prev).remove(0));
                assert(views_of(self.sessions@) =~= vorig.subrange(k + 1, vorig.len() as int));
                assert(s@ == views_of(prev)[0]);
                assert(s@ == vorig[k]);
                assert(vorig.subrange(0, k + 1) =~= vorig.subrange(0, k).push(vorig[k]));
                lemma_filter_push(vorig.subrange(0, k), pred, vorig[k]);
            }
            if str_eq(s.refresh_token.as_str(), refresh_token) {
                proof {
                    if removed == 1 {
                        let kk = vorig.subrange(0, k);
                        let j = choose|j: int|
                            0 <= j < kk.len() && kk[j].refresh_token == refresh_token@;
                        assert(vorig[j].refresh_token == vorig[k].refresh_token);
                    }
                    assert(vorig.subrange(0, k + 1)[k] == vorig[k]);
                    assert(has_token(vorig.subrange(0, k + 1), refresh_token@));
                    assert(!pred(vorig[k]));
                    assert(vorig.subrange(0, k + 1).filter(pred) == vorig.subrange(0, k).filter(
                        pred,
                    ));
                }
                removed += 1;
            } else {
                proof {
                    assert(pred(vorig[k]));
                    assert(views_of(kept@.push(s)) =~= views_of(kept@).push(s@));
                    assert(vorig.subrange(0, k + 1).filter(pred) == vorig.subrange(0, k).filter(
                        pred,
                    ).push(vorig[k]));
                    if has_token(vorig.subrange(0, k + 1), refresh_token@) {
                        let kk = vorig.subrange(0, k + 1);
                        let j = choose|j: int|
                            0 <= j < kk.len() && kk[j].refresh_token == refresh_token@;
                        assert(j < k);
                        assert(vorig.subrange(0, k)[j] == kk[j]);
                    }
                }
                kept.push(s);
            }
        }
        proof {
            assert(vorig.subrange(0, vorig.len() as int) =~= vorig);
            assert(vorig.subrange(vorig.len() - self.sessions@.len(), vorig.len() as int)
                =~= views_of(self.sessions@));
        }
        self.sessions = kept;
        proof {
            lemma_wf_after_filter(vorig, pred);
        }
        removed as u64
    }
}

proof fn lemma_filter_all_kept(t: Seq<SessionSpec>, pred: spec_fn(SessionSpec) -> bool)
    requires
        forall|i: int| 0 <= i < t.len() ==> pred(t[i]),
    ensures
        t.filter(pred) == t,
    decreases t.len(),
{
    reveal(Seq::filter);
    if t.len() > 0 {
        let dl = t.drop_last();
        assert forall|i: int| 0 <= i < dl.len() implies pred(dl[i]) by {
            assert(dl[i] == t[i]);
        }
        lemma_filter_all_kept(dl, pred);
        assert(dl.push(t.last()) =~= t);
    }
}

/// Law: revocation is idempotent — deleting by a key a second time removes
/// nothing more, so repeated logout calls are harmless.
pub proof fn lemma_delete_idempotent(s: Seq<SessionSpec>, pred: spec_fn(SessionSpec) -> bool)
    ensures
        s.filter(pred).filter(pred) == s.filter(pred),
{
    let f = s.filter(pred);
    assert forall|i: int| 0 <= i < f.len() implies pred(f[i]) by {
        s.lemma_filter_pred(pred, i);
    }
    lemma_filter_all_kept(f, pred);
}

/// Law: two revocations commute — concurrent deletes (for instance two
/// logout calls) reach the same table whichever runs first, so no ordering
/// between them is required.
pub proof fn lemma_deletes_commute(
    s: Seq<SessionSpec>,
    p: spec_fn(SessionSpec) -> bool,
    q: spec_fn(SessionSpec) -> bool,
)
    ensures
        s.filter(p).filter(q) == s.filter(q).filter(p),
    decreases s.len(),
{
    reveal(Seq::filter);
    if s.len() > 0 {
        let dl = s.drop_last();
        let e = s.last();
        lemma_deletes_commute(dl, p, q);
        lemma_filter_push(dl.filter(p), q, e);
        lemma_filter_push(dl.filter(q), p, e);
    }
}

proof fn lemma_wf_after_filter(s: Seq<SessionSpec>, pred: spec_fn(SessionSpec) -> bool)
    requires
        forall|i: int, j: int| 0 <= i < j < s.len() ==> s[i].refresh_token != s[j].refresh_token,
    ensures
        forall|i: int, j: int|
            0 <= i < j < s.filter(pred).len() ==> s.filter(pred)[i].refresh_token != s.filter(
                pred,
            )[j].refresh_token,
    decreases s.len(),
{
    reveal(Seq::filter);
    if s.len() > 0 {
        let dl = s.drop_last();
        assert forall|i: int, j: int| 0 <= i < j < dl.len() implies dl[i].refresh_token
            != dl[j].refresh_token by {
            assert(dl[i] == s[i]);
            assert(dl[j] == s[j]);
        }
        lemma_wf_after_filter(dl, pred);
        let f = s.filter(pred);
        let fd = dl.filter(pred);
        if pred(s.last()) {
            assert(f == fd.push(s.last()));
            assert forall|i: int, j: int| 0 <= i < j < f.len() implies f[i].refresh_token
                != f[j].refresh_token by {
                if j < f.len() - 1 {
                    assert(f[i] == fd[i]);
                    assert(f[j] == fd[j]);
                } else {
                    assert(f[j] == s.last());
                    assert(f[i] == fd[i]);
                    lemma_filter_member(dl, pred, i);
                }
            }
        }
    }
}

proof fn lemma_filter_member(s: Seq<SessionSpec>, pred: spec_fn(SessionSpec) -> bool, i: int)
    requires
        0 <= i < s.filter(pred).len(),
    ensures
        exists|j: int| 0 <= j < s.len() && s[j] == s.filter(pred)[i],
    decreases s.len(),
{
    reveal(Seq::filter);
    if s.len() > 0 {
        let dl = s.drop_last();
        let f = s.filter(pred);
        let fd = dl.filter(pred);
        if pred(s.last()) && i == f.len() - 1 {
            assert(f[i] == s.last());
            assert(s[s.len() - 1] == f[i]);
        } else {
            assert(f[i] == fd[i]);
            lemma_filter_member(dl, pred, i);
            let j = choose|j: int| 0 <= j < dl.len() && dl[j] == fd[i];
            assert(s[j] == fd[i]);
        }
    }
}

} // verus!
