use vstd::prelude::*;

use crate::model::{CorePackage, PhoneBackup, User, UserBackup};
use vstd::string::StringExecFns;

verus! {

/// Why a command is requested from the action resolver.
#[derive(Clone, Copy, Debug, PartialEq, Eq, Structural)]
pub enum Action {
    RestoreDevice,
}

/// The sequences of `s` joined end to end, in order.
pub open spec fn concat_all<A>(s: Seq<Seq<A>>) -> Seq<A>
    decreases s.len(),
{
    if s.len() == 0 {
        Seq::empty()
    } else {
        concat_all(s.drop_last()) + s.last()
    }
}

/// Where a restore sends the recorded packages. With
/// `collapse_users_on_restore`, every recorded user's packages go to
/// `selected_user`; without it, each recorded user's packages go to the live
/// user with the same id, found in `live_users`.
#[derive(Clone, Debug, PartialEq, Eq)]
pub struct RestoreSettings {
    pub selected_user: User,
    pub collapse_users_on_restore: bool,
    pub live_users: Vec<User>,
}

/// The first user of `users` whose id is `id`.
pub open spec fn find_user(users: Seq<User>, id: u16) -> Option<User>
    decreases users.len(),
{
    if users.len() == 0 {
        None
    } else if users[0].id == id {
        Some(users[0])
    } else {
        find_user(users.drop_first(), id)
    }
}

/// The live user that receives the packages recorded for user `id`, if any.
pub open spec fn target_of(settings: RestoreSettings, id: u16) -> Option<User> {
    if settings.collapse_users_on_restore {
        Some(settings.selected_user)
    } else {
        find_user(settings.live_users@, id)
    }
}

/// The resolver requests of one recorded user: each of its packages, in
/// stored order, paired with the live user that receives it.
pub open spec fn user_requests(settings: RestoreSettings, u: UserBackup) -> Seq<(User, CorePackage)> {
    match target_of(settings, u.id) {
        Some(t) => u.packages@.map_values(|p: CorePackage| (t, p)),
        None => Seq::empty(),
    }
}

/// Every resolver request of a restore, in stored order: users as
/// persisted, and within a user its packages as persisted.
pub open spec fn restore_requests(backup: PhoneBackup, settings: RestoreSettings) -> Seq<(User, CorePackage)> {
    concat_all(backup.users@.map_values(|u: UserBackup| user_requests(settings, u)))
}

/// The resolver may be asked about any package for any user.
pub open spec fn resolver_ready<F: Fn(&User, &CorePackage, &Action) -> Vec<String>>(
    resolve: F,
) -> bool {
    forall|u: User, p: CorePackage| resolve.requires((&u, &p, &Action::RestoreDevice))
}

/// Every recorded package of a snapshot, in stored order.
pub open spec fn recorded_packages(backup: PhoneBackup) -> Seq<CorePackage> {
    concat_all(backup.users@.map_values(|u: UserBackup| u.packages@))
}

/// With users collapsed, a restore asks about every recorded package, in
/// stored order, each for the one selected user, whichever user recorded it.
pub proof fn lemma_collapsed_restore_requests(backup: PhoneBackup, settings: RestoreSettings)
    requires
        settings.collapse_users_on_restore,
    ensures
        restore_requests(backup, settings) == recorded_packages(backup).map_values(
            |p: CorePackage| (settings.selected_user, p),
        ),
{
    lemma_collapsed_requests_of(backup.users@, settings);
}

proof fn lemma_collapsed_requests_of(users: Seq<UserBackup>, settings: RestoreSettings)
    requires
        settings.collapse_users_on_restore,
    ensures
        concat_all(users.map_values(|u: UserBackup| user_requests(settings, u))) == concat_all(
            users.map_values(|u: UserBackup| u.packages@),
        ).map_values(|p: CorePackage| (settings.selected_user, p)),
    decreases users.len(),
{
    if users.len() > 0 {
        let rest = users.drop_last();
        lemma_collapsed_requests_of(rest, settings);
        assert(users.map_values(|u: UserBackup| user_requests(settings, u)).drop_last()
            =~= rest.map_values(|u: UserBackup| user_requests(settings, u)));
        assert(users.map_values(|u: UserBackup| u.packages@).drop_last() =~= rest.map_values(
            |u: UserBackup| u.packages@,
        ));
        let before = concat_all(rest.map_values(|u: UserBackup| u.packages@));
        let last = users.last().packages@;
        assert((before + last).map_values(|p: CorePackage| (settings.selected_user, p))
            =~= before.map_values(|p: CorePackage| (settings.selected_user, p)) + last.map_values(
            |p: CorePackage| (settings.selected_user, p),
        ));
    } else {
        assert(concat_all(users.map_values(|u: UserBackup| u.packages@)).map_values(
            |p: CorePackage| (settings.selected_user, p),
        ) =~= Seq::empty());
    }
}

/// The answers of the resolver as plain sequences of commands.
pub open spec fn answers_view(answers: Seq<Vec<String>>) -> Seq<Seq<String>> {
    answers.map_values(|a: Vec<String>| a@)
}

/// `answers` holds one answer of the resolver for each request, asked with
/// `Action::RestoreDevice`.
pub open spec fn answers_requests<F: Fn(&User, &CorePackage, &Action) -> Vec<String>>(
    resolve: F,
    requests: Seq<(User, CorePackage)>,
    answers: Seq<Vec<String>>,
) -> bool {
    answers.len() == requests.len() && forall|k: int|
        0 <= k < answers.len() ==> resolve.ensures(
            (&requests[k].0, &requests[k].1, &Action::RestoreDevice),
            #[trigger] answers[k],
        )
}

/// `plan` is a restore plan of `backup` under `settings`: one answer of the
/// resolver for each restore request, in order, joined end to end.
pub open spec fn is_restore_plan<F: Fn(&User, &CorePackage, &Action) -> Vec<String>>(
    resolve: F,
    backup: PhoneBackup,
    settings: RestoreSettings,
    plan: Seq<String>,
) -> bool {
    exists|answers: Seq<Vec<String>>|
        #![trigger concat_all(answers_view(answers))]
        answers_requests(resolve, restore_requests(backup, settings), answers) && plan
            == concat_all(answers_view(answers))
}

proof fn lemma_concat_all_push<A>(s: Seq<Seq<A>>, x: Seq<A>)
    ensures
        concat_all(s.push(x)) == concat_all(s) + x,
{
    assert(s.push(x).drop_last() =~= s);
}

/// The first user of `users` whose id is `id`.
fn find_live_user(users: &Vec<User>, id: u16) -> (r: Option<User>)
    ensures
        r == find_user(users@, id),
{
    let mut k: usize = 0;
    assert(users@.subrange(0, users.len() as int) =~= users@);
    while k < users.len()
        invariant
            k <= users.len(),
            find_user(users@, id) == find_user(users@.subrange(k as int, users.len() as int), id),
        decreases users.len() - k,
    {
        let ghost rest = users@.subrange(k as int, users.len() as int);
        if users[k].id == id {
            return Some(users[k]);
        }
        assert(rest.drop_first() =~= users@.subrange(k + 1, users.len() as int));
        k = k + 1;
    }
    None
}

/// The live user that receives the packages recorded for user `id`.
fn restore_target(settings: &RestoreSettings, id: u16) -> (r: Option<User>)
    ensures
        r == target_of(*settings, id),
{
    if settings.collapse_users_on_restore {
        Some(settings.selected_user)
    } else {
        find_live_user(&settings.live_users, id)
    }
}

/// Asks the resolver, for every restore request in order, which commands
/// bring that package to its recorded state for that live user, and joins
/// the answers in that order.
pub fn plan_restore<F: Fn(&User, &CorePackage, &Action) -> Vec<String>>(
    backup: &PhoneBackup,
    settings: &RestoreSettings,
    resolve: &F,
) -> (r: Vec<String>)
    requires
        resolver_ready(*resolve),
    ensures
        is_restore_plan(*resolve, *backup, *settings, r@),
{
    let ghost per_user = backup.users@.map_values(|u: UserBackup| user_requests(*settings, u));
    let ghost mut answers: Seq<Vec<String>> = Seq::empty();
    let ghost mut asked: Seq<(User, CorePackage)> = Seq::empty();
    let action = Action::RestoreDevice;
    let mut commands: Vec<String> = Vec::new();
    let mut i: usize = 0;
    while i < backup.users.len()
        invariant
            i <= backup.users.len(),
            resolver_ready(*resolve),
            action == Action::RestoreDevice,
            per_user == backup.users@.map_values(|u: UserBackup| user_requests(*settings, u)),
            asked == concat_all(per_user.subrange(0, i as int)),
            answers_requests(*resolve, asked, answers),
            commands@ == concat_all(answers_view(answers)),
        decreases backup.users.len() - i,
    {
        let user = &backup.users[i];
        let ghost start = asked;
        match restore_target(settings, user.id) {
            Some(target) => {
                let ghost reqs = user_requests(*settings, *user);
                let mut j: usize = 0;
                while j < user.packages.len()
                    invariant
                        j <= user.packages.len(),
                        resolver_ready(*resolve),
                        action == Action::RestoreDevice,
                        reqs == user.packages@.map_values(|p: CorePackage| (target, p)),
                        asked == start + reqs.subrange(0, j as int),
                        answers_requests(*resolve, asked, answers),
                        commands@ == concat_all(answers_view(answers)),
                    decreases user.packages.len() - j,
                {
                    let mut answer = resolve(&target, &user.packages[j], &action);
                    proof {
                        lemma_concat_all_push(answers_view(answers), answer@);
                        assert(answers_view(answers.push(answer)) =~= answers_view(answers).push(
                            answer@,
                        ));
                        answers = answers.push(answer);
                        asked = asked.push((target, user.packages@[j as int]));
                        assert(asked =~= start + reqs.subrange(0, j + 1));
                    }
                    commands.append(&mut answer);
                    j = j + 1;
                }
                proof {
                    assert(reqs.subrange(0, j as int) =~= reqs);
                }
            },
            None => {
                assert(start + per_user[i as int] =~= start);
            },
        }
        proof {
            assert(per_user.subrange(0, i + 1).drop_last() =~= per_user.subrange(0, i as int));
        }
        i = i + 1;
    }
    proof {
        assert(per_user.subrange(0, i as int) =~= per_user);
    }
    commands
}

/// The error text of a restore whose snapshot could not be loaded.
pub open spec fn restore_error(reason: Seq<char>) -> Seq<char> {
    "[BACKUP]: "@ + reason
}

/// Restores a loaded snapshot as `settings` direct. A snapshot that could not be
/// read or parsed (`Err(reason)`) fails the call with a descriptive error and
/// the resolver is never asked; otherwise the result is the restore plan.
pub fn restore_backup<F: Fn(&User, &CorePackage, &Action) -> Vec<String>>(
    loaded: Result<PhoneBackup, String>,
    settings: &RestoreSettings,
    resolve: &F,
) -> (r: Result<Vec<String>, String>)
    requires
        resolver_ready(*resolve),
    ensures
        loaded is Err <==> r is Err,
        loaded is Err ==> r->Err_0@ == restore_error(loaded->Err_0@),
        loaded is Ok ==> is_restore_plan(*resolve, loaded->Ok_0, *settings, r->Ok_0@),
{
    match loaded {
        Ok(backup) => Ok(plan_restore(&backup, settings, resolve)),
        Err(reason) => {
            let mut message = String::from_str("[BACKUP]: ");
            message.append(reason.as_str());
            Err(message)
        },
    }
}

} // verus!
