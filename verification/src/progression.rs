//! Progression: which level roles a member should hold for its text,
//! voice and seniority levels, how voice activity turns into XP, and the
//! reports of a role resynchronisation.

use vstd::prelude::*;
use crate::config::{ConfigMap, text_setting};
use crate::text::{int_text, owned, parse_u64, parse_u64_spec, push_str, push_u64, str_eq};

verus! {

/// Module name of the progression features in the guild configuration.
pub const MODULE_BOT_NAME: &'static str = "progression-bot";
/// Role-sync sources, in the order they are handled.
pub const SOURCE_TEXT: &'static str = "text";
pub const SOURCE_VOICE: &'static str = "voice";
pub const SOURCE_DAYS: &'static str = "days";

/// A level reward of the guild: reaching `level` in `source` (`text`,
/// `voice` or `days`) grants the role `role_id`.
pub struct RewardEntry {
    pub id: String,
    pub guild_id: String,
    pub level: i32,
    pub role_id: String,
    pub source: String,
}

/// The streak of a member as the API stores it.
pub struct StreakResponse {
    pub streak_current: u32,
    pub streak_best: u32,
    pub streak_last_day: u32,
    pub streak_last_year: i32,
}

// ───────────────────────── effective levels ─────────────────────────

/// Levels the text and voice rewards are measured against, by the guild's
/// `xp_role_mode`: `max` uses the higher of the two for both, `total` the
/// global level for both, anything else each its own.
pub open spec fn effective_levels_spec(mode: Seq<char>, text: i32, voice: i32, global: i32) -> (i32, i32) {
    if mode == "max"@ {
        let m = if text >= voice {
            text
        } else {
            voice
        };
        (m, m)
    } else if mode == "total"@ {
        (global, global)
    } else {
        (text, voice)
    }
}

/// The text and voice levels used for rewards under `mode`.
pub fn effective_levels(mode: &str, text: i32, voice: i32, global: i32) -> (r: (i32, i32))
    ensures
        r == effective_levels_spec(mode@, text, voice, global),
{
    if str_eq(mode, "max") {
        let m = if text >= voice {
            text
        } else {
            voice
        };
        (m, m)
    } else if str_eq(mode, "total") {
        (global, global)
    } else {
        (text, voice)
    }
}

/// The role mode of a guild: setting `xp_role_mode`, default `separate`.
pub fn xp_role_mode(cfg: &ConfigMap) -> (r: String)
    ensures
        r@ == text_setting(cfg, "xp_role_mode"@, "separate"@),
{
    crate::config::config_or(cfg, "xp_role_mode", "separate")
}

/// Whole days between two Unix times, rounded toward zero.
pub open spec fn days_between(joined: int, now: int) -> int {
    let d = now - joined;
    if d >= 0 {
        d / 86400
    } else {
        -((-d) / 86400)
    }
}

/// Days since a member joined, 0 when the join time is unknown.
pub fn days_since_join(now: i64, joined: Option<i64>) -> (d: i64)
    requires
        joined matches Some(j) ==> i64::MIN < now - j <= i64::MAX,
    ensures
        d == match joined {
            Some(j) => days_between(j as int, now as int),
            None => 0,
        },
{
    match joined {
        Some(j) => {
            let diff: i64 = now - j;
            if diff >= 0 {
                diff / 86400
            } else {
                let neg: i64 = -diff;
                -(neg / 86400)
            }
        },
        None => 0,
    }
}

// ───────────────────────── the best reward ─────────────────────────

/// `r` is a reward of `source` that a member at `level` has reached.
pub open spec fn qualifies(r: RewardEntry, source: Seq<char>, level: int) -> bool {
    r.source@ == source && r.level <= level
}

/// `i` is the reward to hold for `source` at `level`: it qualifies, no
/// qualifying reward has a higher level, and it comes first among those
/// of its level.
pub open spec fn is_best_reward(rs: Seq<RewardEntry>, source: Seq<char>, level: int, i: int) -> bool {
    &&& 0 <= i < rs.len()
    &&& qualifies(rs[i], source, level)
    &&& forall|j: int| 0 <= j < rs.len() && qualifies(#[trigger] rs[j], source, level) ==> rs[j].level <= rs[i].level
    &&& forall|j: int| 0 <= j < i && qualifies(#[trigger] rs[j], source, level) ==> rs[j].level < rs[i].level
}

/// The reward to hold for `source` at `level`, if any reward qualifies.
pub open spec fn best_reward_spec(rs: Seq<RewardEntry>, source: Seq<char>, level: int) -> Option<int> {
    if exists|i: int| is_best_reward(rs, source, level, i) {
        Some(choose|i: int| is_best_reward(rs, source, level, i))
    } else {
        None
    }
}

proof fn lemma_best_unique(rs: Seq<RewardEntry>, source: Seq<char>, level: int, i: int, k: int)
    requires
        is_best_reward(rs, source, level, i),
        is_best_reward(rs, source, level, k),
    ensures
        i == k,
{
    if i < k {
        assert(qualifies(rs[i], source, level));
    } else if k < i {
        assert(qualifies(rs[k], source, level));
    }
}

/// Index of the reward to hold for `source` at `level`: the highest level
/// reached, the first listed among equals.
pub fn best_reward(rewards: &Vec<RewardEntry>, source: &str, level: i32) -> (r: Option<usize>)
    ensures
        match r {
            Some(i) => best_reward_spec(rewards@, source@, level as int) == Some(i as int),
            None => best_reward_spec(rewards@, source@, level as int) is None,
        },
{
    let ghost rs = rewards@;
    let n = rewards.len();
    let mut best: Option<usize> = None;
    for i in 0..n
        invariant
            n == rs.len(),
            rs == rewards@,
            match best {
                Some(b) => {
                    &&& b < i
                    &&& qualifies(rs[b as int], source@, level as int)
                    &&& forall|j: int| 0 <= j < i && qualifies(#[trigger] rs[j], source@, level as int) ==> rs[j].level
                        <= rs[b as int].level
                    &&& forall|j: int| 0 <= j < b && qualifies(#[trigger] rs[j], source@, level as int) ==> rs[j].level
                        < rs[b as int].level
                },
                None => forall|j: int| 0 <= j < i ==> !qualifies(#[trigger] rs[j], source@, level as int),
            },
    {
        let e = &rewards[i];
        if str_eq(e.source.as_str(), source) && e.level <= level {
            let better = match best {
                Some(b) => e.level > rewards[b].level,
                None => true,
            };
            if better {
                best = Some(i);
            }
        }
    }
    match best {
        Some(b) => {
            proof {
                assert(is_best_reward(rs, source@, level as int, b as int));
                let c = choose|c: int| is_best_reward(rs, source@, level as int, c);
                lemma_best_unique(rs, source@, level as int, b as int, c);
            }
            Some(b)
        },
        None => {
            proof {
                if exists|c: int| is_best_reward(rs, source@, level as int, c) {
                    let c = choose|c: int| is_best_reward(rs, source@, level as int, c);
                    assert(qualifies(rs[c], source@, level as int));
                }
            }
            None
        },
    }
}

// ───────────────────────── the role plan ─────────────────────────

/// The role changes for one source: the role to add, if the member lacks
/// it, and the roles to take away.
pub struct RolePlan {
    pub add: Option<u64>,
    pub remove: Vec<u64>,
}

/// Reward `j` has its place in `order`.
pub open spec fn placed(order: Seq<int>, j: int) -> bool {
    exists|q: int| 0 <= q < order.len() && order[q] == j
}

/// `order` lists the positions of the rewards of `source` among the first
/// `i` of `rs`, each once, highest level first, those of equal level in
/// the order listed.
pub open spec fn source_order_upto(rs: Seq<RewardEntry>, source: Seq<char>, i: int, order: Seq<int>) -> bool {
    &&& forall|q: int| 0 <= q < order.len() ==> 0 <= #[trigger] order[q] < i && rs[order[q]].source@ == source
    &&& forall|j: int| 0 <= j < i && rs[j].source@ == source ==> #[trigger] placed(order, j)
    &&& forall|a: int, b: int|
        0 <= a < b < order.len() ==> rs[#[trigger] order[a]].level >= rs[#[trigger] order[b]].level
    &&& forall|a: int, b: int|
        0 <= a < b < order.len() && rs[#[trigger] order[a]].level == rs[#[trigger] order[b]].level
            ==> order[a] < order[b]
}

/// `order` is the order in which the rewards of `source` are walked: all
/// of them, highest level first, equal levels in the order listed (a
/// stable sort by decreasing level).
pub open spec fn source_order(rs: Seq<RewardEntry>, source: Seq<char>, order: Seq<int>) -> bool {
    source_order_upto(rs, source, rs.len() as int, order)
}

/// The roles to take away, walking the rewards at the positions of
/// `order`: each role id that reads as a number, is not `keep` and is
/// held; a role listed by two rewards comes twice.
pub open spec fn removals_spec(rs: Seq<RewardEntry>, order: Seq<int>, keep: Option<u64>, held: Seq<u64>) -> Seq<u64>
    decreases order.len(),
{
    if order.len() == 0 {
        Seq::empty()
    } else {
        let prev = removals_spec(rs, order.drop_last(), keep, held);
        match parse_u64_spec(rs[order.last()].role_id@) {
            Some(x) => if keep != Some(x) && held.contains(x) {
                prev.push(x)
            } else {
                prev
            },
            None => prev,
        }
    }
}

/// The role changes for `source` at `level`, the rewards of `source`
/// walked in `order`: when a reward qualifies and its role id reads as a
/// number, add that role if the member lacks it and remove the member's
/// other roles of the source; when a reward qualifies but its role id does
/// not read, change nothing; when none qualifies, remove all the member's
/// roles of the source.
pub open spec fn role_plan_spec(rs: Seq<RewardEntry>, source: Seq<char>, level: int, held: Seq<u64>, order: Seq<int>) -> (
    Option<u64>,
    Seq<u64>,
) {
    match best_reward_spec(rs, source, level) {
        Some(i) => match parse_u64_spec(rs[i].role_id@) {
            Some(b) => (
                if held.contains(b) {
                    None
                } else {
                    Some(b)
                },
                removals_spec(rs, order, Some(b), held),
            ),
            None => (None, Seq::empty()),
        },
        None => (None, removals_spec(rs, order, None, held)),
    }
}

fn contains_u64(v: &Vec<u64>, x: u64) -> (r: bool)
    ensures
        r == v@.contains(x),
{
    let n = v.len();
    for i in 0..n
        invariant
            n == v@.len(),
            forall|j: int| 0 <= j < i ==> v@[j] != x,
    {
        if v[i] == x {
            assert(v@[i as int] == x);
            return true;
        }
    }
    false
}

spec fn index_view(s: Seq<usize>) -> Seq<int> {
    s.map_values(|x: usize| x as int)
}

/// Putting reward `i` at `p`, after the levels not below its own and
/// before the lower ones, keeps the order.
proof fn lemma_place_reward(rs: Seq<RewardEntry>, source: Seq<char>, i: int, order: Seq<int>, p: int)
    requires
        0 <= i < rs.len(),
        rs[i].source@ == source,
        source_order_upto(rs, source, i, order),
        0 <= p <= order.len(),
        forall|q: int| 0 <= q < p ==> rs[#[trigger] order[q]].level >= rs[i].level,
        p < order.len() ==> rs[order[p]].level < rs[i].level,
    ensures
        source_order_upto(rs, source, i + 1, order.insert(p, i)),
{
    let o2 = order.insert(p, i);
    assert forall|q: int| p <= q < order.len() implies rs[#[trigger] order[q]].level < rs[i].level by {
        if q > p {
            assert(rs[order[p]].level >= rs[order[q]].level);
        }
    }
    assert forall|q: int| 0 <= q < o2.len() implies 0 <= #[trigger] o2[q] < i + 1 && rs[o2[q]].source@ == source by {
        if q < p {
            assert(o2[q] == order[q]);
        } else if q > p {
            assert(o2[q] == order[q - 1]);
        }
    }
    assert forall|j: int| 0 <= j < i + 1 && rs[j].source@ == source implies #[trigger] placed(o2, j) by {
        if j == i {
            assert(o2[p] == i);
        } else {
            assert(placed(order, j));
            let q = choose|q: int| 0 <= q < order.len() && order[q] == j;
            if q < p {
                assert(o2[q] == j);
            } else {
                assert(o2[q + 1] == j);
            }
        }
    }
    assert forall|a: int, b: int| 0 <= a < b < o2.len() implies rs[#[trigger] o2[a]].level >= rs[#[trigger] o2[b]].level
        && (rs[o2[a]].level == rs[o2[b]].level ==> o2[a] < o2[b]) by {
        if b < p {
            assert(o2[a] == order[a] && o2[b] == order[b]);
        } else if a > p {
            assert(o2[a] == order[a - 1] && o2[b] == order[b - 1]);
        } else if b == p {
            assert(o2[a] == order[a] && o2[b] == i);
        } else if a == p {
            assert(o2[b] == order[b - 1] && o2[a] == i);
        } else {
            assert(o2[a] == order[a] && o2[b] == order[b - 1]);
        }
    }
}

/// The positions of the rewards of `source`, highest level first, equal
/// levels in the order listed.
fn walk_order(rewards: &Vec<RewardEntry>, source: &str) -> (v: Vec<usize>)
    ensures
        source_order(rewards@, source@, index_view(v@)),
{
    let ghost rs = rewards@;
    let n = rewards.len();
    let mut order: Vec<usize> = Vec::new();
    for i in 0..n
        invariant
            n == rs.len(),
            rs == rewards@,
            source_order_upto(rs, source@, i as int, index_view(order@)),
    {
        let ghost ord = index_view(order@);
        assert(order@.len() == ord.len());
        if str_eq(rewards[i].source.as_str(), source) {
            let lvl = rewards[i].level;
            let len = order.len();
            let mut p: usize = 0;
            loop
                invariant
                    len == order@.len(),
                    ord == index_view(order@),
                    n == rs.len(),
                    rs == rewards@,
                    source_order_upto(rs, source@, i as int, ord),
                    i < n,
                    lvl == rs[i as int].level,
                    p <= len,
                    forall|q: int| 0 <= q < p ==> rs[#[trigger] ord[q]].level >= lvl,
                ensures
                    p <= len,
                    forall|q: int| 0 <= q < p ==> rs[#[trigger] ord[q]].level >= lvl,
                    p < len ==> rs[ord[p as int]].level < lvl,
                decreases len - p,
            {
                if p >= len {
                    break;
                }
                let at = order[p];
                assert(ord[p as int] == at as int);
                if rewards[at].level < lvl {
                    break;
                }
                p = p + 1;
            }
            proof {
                lemma_place_reward(rs, source@, i as int, ord, p as int);
            }
            order.insert(p, i);
            proof {
                assert(index_view(order@) =~= ord.insert(p as int, i as int));
            }
        }
    }
    order
}

fn removals(rewards: &Vec<RewardEntry>, order: &Vec<usize>, keep: Option<u64>, held: &Vec<u64>) -> (out: Vec<u64>)
    requires
        forall|q: int| 0 <= q < order@.len() ==> #[trigger] order@[q] < rewards@.len(),
    ensures
        out@ == removals_spec(rewards@, index_view(order@), keep, held@),
{
    let ghost ord = index_view(order@);
    let n = order.len();
    let mut out: Vec<u64> = Vec::new();
    for q in 0..n
        invariant
            n == order@.len(),
            ord == index_view(order@),
            forall|q: int| 0 <= q < order@.len() ==> #[trigger] order@[q] < rewards@.len(),
            out@ == removals_spec(rewards@, ord.take(q as int), keep, held@),
    {
        let ghost prefix = ord.take(q + 1);
        assert(prefix.drop_last() =~= ord.take(q as int));
        assert(prefix.last() == order@[q as int] as int);
        let e = &rewards[order[q]];
        match parse_u64(e.role_id.as_str()) {
            Some(x) => {
                let keep_it = match keep {
                    Some(k) => k == x,
                    None => false,
                };
                if !keep_it && contains_u64(held, x) {
                    out.push(x);
                }
            },
            None => {},
        }
    }
    assert(ord.take(n as int) =~= ord);
    out
}

/// The role changes for `source` at `level` for a member holding `held`,
/// the rewards of `source` walked highest level first.
pub fn role_plan(rewards: &Vec<RewardEntry>, source: &str, level: i32, held: &Vec<u64>) -> (p: RolePlan)
    ensures
        exists|order: Seq<int>|
            source_order(rewards@, source@, order) && (p.add, p.remove@) == role_plan_spec(
                rewards@,
                source@,
                level as int,
                held@,
                order,
            ),
{
    let order = walk_order(rewards, source);
    let ghost ord = index_view(order@);
    assert forall|q: int| 0 <= q < order@.len() implies #[trigger] order@[q] < rewards@.len() by {
        assert(ord[q] == order@[q] as int);
    }
    let p = match best_reward(rewards, source, level) {
        Some(i) => match parse_u64(rewards[i].role_id.as_str()) {
            Some(b) => {
                let add = if contains_u64(held, b) {
                    None
                } else {
                    Some(b)
                };
                RolePlan { add, remove: removals(rewards, &order, Some(b), held) }
            },
            None => RolePlan { add: None, remove: Vec::new() },
        },
        None => RolePlan { add: None, remove: removals(rewards, &order, None, held) },
    };
    assert(source_order(rewards@, source@, ord));
    p
}

/// The changes of one source, as `role_plan` states them.
pub open spec fn plan_of(p: RolePlan, rs: Seq<RewardEntry>, source: Seq<char>, level: int, held: Seq<u64>) -> bool {
    exists|order: Seq<int>| source_order(rs, source, order) && (p.add, p.remove@) == role_plan_spec(rs, source, level, held, order)
}

/// The role changes of all three sources, in order text, voice, days:
/// text and voice measured by the levels of the role mode, days by the
/// days since joining (taken as `i32`).
pub fn plan_role_sync(
    rewards: &Vec<RewardEntry>,
    mode: &str,
    level_text: i32,
    level_voice: i32,
    level_global: i32,
    days_since_join: i64,
    held: &Vec<u64>,
) -> (plans: Vec<RolePlan>)
    ensures
        plans@.len() == 3,
        ({
            let (t, v) = effective_levels_spec(mode@, level_text, level_voice, level_global);
            &&& plan_of(plans@[0], rewards@, "text"@, t as int, held@)
            &&& plan_of(plans@[1], rewards@, "voice"@, v as int, held@)
            &&& plan_of(plans@[2], rewards@, "days"@, days_since_join as i32 as int, held@)
        }),
{
    let (t, v) = effective_levels(mode, level_text, level_voice, level_global);
    let d: i32 = days_since_join as i32;
    let mut plans: Vec<RolePlan> = Vec::new();
    plans.push(role_plan(rewards, SOURCE_TEXT, t, held));
    plans.push(role_plan(rewards, SOURCE_VOICE, v, held));
    plans.push(role_plan(rewards, SOURCE_DAYS, d, held));
    plans
}

// ───────────────────────── laws of the role sync ─────────────────────────

/// `x` is the role of one of `source`'s rewards.
pub open spec fn is_source_role(rs: Seq<RewardEntry>, source: Seq<char>, x: u64) -> bool {
    exists|j: int| 0 <= j < rs.len() && (#[trigger] rs[j]).source@ == source && parse_u64_spec(rs[j].role_id@) == Some(x)
}

/// `x` is the role of a reward at one of the positions of `order`.
spec fn walked_role(rs: Seq<RewardEntry>, order: Seq<int>, x: u64) -> bool {
    exists|q: int| 0 <= q < order.len() && parse_u64_spec(rs[#[trigger] order[q]].role_id@) == Some(x)
}

proof fn lemma_removals_contains(rs: Seq<RewardEntry>, order: Seq<int>, keep: Option<u64>, held: Seq<u64>, x: u64)
    ensures
        removals_spec(rs, order, keep, held).contains(x) <==> (held.contains(x) && keep != Some(x)
            && walked_role(rs, order, x)),
    decreases order.len(),
{
    if order.len() == 0 {
        assert(!walked_role(rs, order, x));
    } else {
        let d = order.drop_last();
        let prev = removals_spec(rs, d, keep, held);
        let cur = removals_spec(rs, order, keep, held);
        lemma_removals_contains(rs, d, keep, held, x);
        if walked_role(rs, order, x) {
            let q = choose|q: int| 0 <= q < order.len() && parse_u64_spec(rs[#[trigger] order[q]].role_id@) == Some(x);
            if q < order.len() - 1 {
                assert(d[q] == order[q]);
            }
        }
        if walked_role(rs, d, x) {
            let q = choose|q: int| 0 <= q < d.len() && parse_u64_spec(rs[#[trigger] d[q]].role_id@) == Some(x);
            assert(order[q] == d[q]);
        }
        let last = order[order.len() - 1];
        assert(order.last() == last);
        match parse_u64_spec(rs[last].role_id@) {
            Some(y) => {
                if keep != Some(y) && held.contains(y) {
                    assert(cur == prev.push(y));
                    if cur.contains(x) {
                        let k = choose|k: int| 0 <= k < cur.len() && cur[k] == x;
                        if k < prev.len() {
                            assert(prev[k] == x);
                        }
                    }
                    if prev.contains(x) {
                        let k = choose|k: int| 0 <= k < prev.len() && prev[k] == x;
                        assert(cur[k] == x);
                    }
                    if y == x {
                        assert(cur[prev.len() as int] == x);
                    }
                } else {
                    assert(cur == prev);
                }
            },
            None => {
                assert(cur == prev);
            },
        }
    }
}

proof fn lemma_walked_is_source(rs: Seq<RewardEntry>, source: Seq<char>, order: Seq<int>, x: u64)
    requires
        source_order(rs, source, order),
    ensures
        walked_role(rs, order, x) <==> is_source_role(rs, source, x),
{
    if walked_role(rs, order, x) {
        let q = choose|q: int| 0 <= q < order.len() && parse_u64_spec(rs[#[trigger] order[q]].role_id@) == Some(x);
        let j = order[q];
        assert(rs[j].source@ == source);
    }
    if is_source_role(rs, source, x) {
        let j = choose|j: int| 0 <= j < rs.len() && (#[trigger] rs[j]).source@ == source && parse_u64_spec(rs[j].role_id@) == Some(x);
        assert(placed(order, j));
        let q = choose|q: int| 0 <= q < order.len() && order[q] == j;
        assert(parse_u64_spec(rs[order[q]].role_id@) == Some(x));
    }
}

/// After a role sync of one source, the member holds, among that source's
/// reward roles, exactly the role of the best reward reached (when its id
/// reads as a number), or none of them when no reward is reached: the role
/// to add is the best one when missing, it is never removed, and every
/// other held role of the source is removed.
pub proof fn law_role_sync_keeps_only_best(
    rs: Seq<RewardEntry>,
    source: Seq<char>,
    level: int,
    held: Seq<u64>,
    order: Seq<int>,
    x: u64,
)
    requires
        source_order(rs, source, order),
    ensures
        ({
            let (add, remove) = role_plan_spec(rs, source, level, held, order);
            match best_reward_spec(rs, source, level) {
                Some(i) => match parse_u64_spec(rs[i].role_id@) {
                    Some(b) => {
                        &&& (add == Some(b) <==> !held.contains(b))
                        &&& (add is None <==> held.contains(b))
                        &&& !remove.contains(b)
                        &&& (remove.contains(x) <==> (held.contains(x) && x != b && is_source_role(rs, source, x)))
                    },
                    None => add is None && remove.len() == 0,
                },
                None => add is None && (remove.contains(x) <==> (held.contains(x) && is_source_role(rs, source, x))),
            }
        }),
{
    lemma_walked_is_source(rs, source, order, x);
    match best_reward_spec(rs, source, level) {
        Some(i) => match parse_u64_spec(rs[i].role_id@) {
            Some(b) => {
                lemma_removals_contains(rs, order, Some(b), held, x);
                lemma_removals_contains(rs, order, Some(b), held, b);
            },
            None => {},
        },
        None => {
            lemma_removals_contains(rs, order, None, held, x);
        },
    }
}

// ───────────────────────── XP events ─────────────────────────

/// A level change calls for a role check: a level-up, or a first level
/// reached from level 0.
pub fn needs_role_check(leveled_up: bool, old_level: i32, new_level: i32) -> (r: bool)
    ensures
        r == (leveled_up || (old_level == 0 && new_level > 0)),
{
    leveled_up || (old_level == 0 && new_level > 0)
}

/// Base XP of a voice session, before the channel and role multipliers:
/// one grant of `per_minute` per whole minute. The multiplied amount is
/// computed on floating-point numbers, outside this library.
pub fn voice_xp(seconds: u64, per_minute: i64) -> (xp: i64)
    requires
        i64::MIN <= (seconds / 60) * per_minute <= i64::MAX,
    ensures
        xp == (seconds / 60) * per_minute,
{
    let minutes: u64 = seconds / 60;
    if minutes == 0 || per_minute == 0 {
        assert(minutes * per_minute == 0) by (nonlinear_arith)
            requires
                minutes == 0 || per_minute == 0,
        ;
        return 0;
    }
    if minutes <= i64::MAX as u64 {
        let m: i64 = minutes as i64;
        return m * per_minute;
    }
    proof {
        if per_minute > 0 {
            assert(minutes * per_minute >= minutes) by (nonlinear_arith)
                requires
                    per_minute >= 1,
                    minutes >= 0,
            ;
        } else if per_minute <= -2 {
            assert(minutes * per_minute <= -2 * minutes) by (nonlinear_arith)
                requires
                    per_minute <= -2,
                    minutes >= 0,
            ;
        }
    }
    i64::MIN
}

/// What a voice-state change means for a member.
#[derive(PartialEq, Eq, Structural, Clone, Copy, Debug)]
pub enum VoiceTransition {
    /// Joined a voice channel, muted and deafened or not.
    Join { afk: bool },
    /// Stayed in voice and switched between away and present.
    AfkChange { afk: bool },
    /// Left voice: the session ends.
    Leave,
    /// Nothing to record.
    Unchanged,
}

/// Classifies a voice-state change from the old and new states: in a
/// channel or not, and away (both muted and deafened) or not.
pub fn voice_transition(was_in_voice: bool, is_in_voice: bool, was_afk: bool, is_afk: bool) -> (t:
    VoiceTransition)
    ensures
        t == (if !was_in_voice && is_in_voice {
            VoiceTransition::Join { afk: is_afk }
        } else if was_in_voice && is_in_voice {
            if was_afk != is_afk {
                VoiceTransition::AfkChange { afk: is_afk }
            } else {
                VoiceTransition::Unchanged
            }
        } else if was_in_voice && !is_in_voice {
            VoiceTransition::Leave
        } else {
            VoiceTransition::Unchanged
        }),
{
    if !was_in_voice && is_in_voice {
        VoiceTransition::Join { afk: is_afk }
    } else if was_in_voice && is_in_voice {
        if was_afk != is_afk {
            VoiceTransition::AfkChange { afk: is_afk }
        } else {
            VoiceTransition::Unchanged
        }
    } else if was_in_voice && !is_in_voice {
        VoiceTransition::Leave
    } else {
        VoiceTransition::Unchanged
    }
}

/// The role given to newcomers: setting `default_role_id` when it is not
/// empty and reads as a number.
pub fn default_role_id(cfg: &ConfigMap) -> (r: Option<u64>)
    ensures
        r == (if text_setting(cfg, "default_role_id"@, ""@).len() == 0 {
            None
        } else {
            parse_u64_spec(text_setting(cfg, "default_role_id"@, ""@))
        }),
{
    let raw = crate::config::config_or(cfg, "default_role_id", "");
    if raw.as_str().is_empty() {
        None
    } else {
        parse_u64(raw.as_str())
    }
}

// ───────────────────────── resynchronisation reports ─────────────────────────

/// Most members a whole-guild resync handles.
pub const RESYNC_ALL_MAX_USERS: u32 = 200;

/// How many members a whole-guild resync handles: the `limit` option taken
/// as `u32` (truncating), 50 by default, at most 200.
pub fn sub_limit(limit: Option<i64>) -> (n: u32)
    ensures
        n == ({
            let asked: u32 = match limit {
                Some(v) => v as u32,
                None => 50u32,
            };
            if asked <= 200 {
                asked
            } else {
                200u32
            }
        }),
{
    let asked: u32 = match limit {
        Some(v) => v as u32,
        None => 50,
    };
    if asked <= RESYNC_ALL_MAX_USERS {
        asked
    } else {
        RESYNC_ALL_MAX_USERS
    }
}

/// What a role resync did for one member.
pub struct RoleSyncReport {
    pub added_roles: Vec<u64>,
    pub removed_roles: Vec<u64>,
    pub errors: Vec<String>,
    /// The member or the API could not be reached.
    pub skipped: bool,
}

/// The report changed some role.
pub open spec fn report_changed(r: &RoleSyncReport) -> bool {
    r.added_roles@.len() > 0 || r.removed_roles@.len() > 0
}

/// Running totals of a whole-guild resync.
pub struct ResyncTally {
    pub total_added: usize,
    pub total_removed: usize,
    pub total_errors: usize,
    pub skipped: usize,
    pub affected_users: usize,
}

impl ResyncTally {
    /// All totals at zero.
    pub fn new() -> (t: ResyncTally)
        ensures
            t.total_added == 0 && t.total_removed == 0 && t.total_errors == 0 && t.skipped == 0
                && t.affected_users == 0,
    {
        ResyncTally { total_added: 0, total_removed: 0, total_errors: 0, skipped: 0, affected_users: 0 }
    }

    /// A leaderboard entry whose user id does not read as a number.
    pub fn record_unreadable(&mut self)
        requires
            old(self).skipped < usize::MAX,
        ensures
            final(self).skipped == old(self).skipped + 1,
            final(self).total_added == old(self).total_added,
            final(self).total_removed == old(self).total_removed,
            final(self).total_errors == old(self).total_errors,
            final(self).affected_users == old(self).affected_users,
    {
        self.skipped = self.skipped + 1;
    }

    /// Adds a member's report: a skipped member counts as skipped,
    /// otherwise as affected when some role changed; roles and errors are
    /// summed in every case.
    pub fn record(&mut self, r: &RoleSyncReport)
        requires
            old(self).skipped < usize::MAX,
            old(self).affected_users < usize::MAX,
            old(self).total_added + r.added_roles@.len() <= usize::MAX,
            old(self).total_removed + r.removed_roles@.len() <= usize::MAX,
            old(self).total_errors + r.errors@.len() <= usize::MAX,
        ensures
            final(self).skipped == old(self).skipped + (if r.skipped { 1int } else { 0int }),
            final(self).affected_users == old(self).affected_users + (if !r.skipped && report_changed(r) {
                1int
            } else {
                0int
            }),
            final(self).total_added == old(self).total_added + r.added_roles@.len(),
            final(self).total_removed == old(self).total_removed + r.removed_roles@.len(),
            final(self).total_errors == old(self).total_errors + r.errors@.len(),
    {
        if r.skipped {
            self.skipped = self.skipped + 1;
        } else if r.added_roles.len() > 0 || r.removed_roles.len() > 0 {
            self.affected_users = self.affected_users + 1;
        }
        self.total_added = self.total_added + r.added_roles.len();
        self.total_removed = self.total_removed + r.removed_roles.len();
        self.total_errors = self.total_errors + r.errors.len();
    }
}

/// Text of a whole-guild resync's summary.
pub open spec fn resync_summary_spec(total: usize, t: ResyncTally) -> Seq<char> {
    "**"@ + int_text(total as int) + "** joueurs traites (top XP global).\n\n- \u{2795} Roles attribues : **"@
        + int_text(t.total_added as int) + "**\n- \u{2796} Roles retires : **"@ + int_text(t.total_removed as int)
        + "**\n- \u{1f465} Membres modifies : **"@ + int_text(t.affected_users as int)
        + "**\n- \u{23ed}\u{fe0f} Skipped (parti du serveur, API HS, etc.) : **"@ + int_text(t.skipped as int)
        + "**\n- \u{26a0}\u{fe0f} Erreurs Discord (perms / rate limit) : **"@ + int_text(t.total_errors as int)
        + "**"@
}

/// The summary of a whole-guild resync over `total` members.
pub fn resync_summary(total: usize, t: &ResyncTally) -> (s: String)
    ensures
        s@ == resync_summary_spec(total, *t),
{
    let mut s = owned("**");
    push_u64(&mut s, total as u64);
    push_str(&mut s, "** joueurs traites (top XP global).\n\n- \u{2795} Roles attribues : **");
    push_u64(&mut s, t.total_added as u64);
    push_str(&mut s, "**\n- \u{2796} Roles retires : **");
    push_u64(&mut s, t.total_removed as u64);
    push_str(&mut s, "**\n- \u{1f465} Membres modifies : **");
    push_u64(&mut s, t.affected_users as u64);
    push_str(&mut s, "**\n- \u{23ed}\u{fe0f} Skipped (parti du serveur, API HS, etc.) : **");
    push_u64(&mut s, t.skipped as u64);
    push_str(&mut s, "**\n- \u{26a0}\u{fe0f} Erreurs Discord (perms / rate limit) : **");
    push_u64(&mut s, t.total_errors as u64);
    push_str(&mut s, "**");
    s
}

/// Colour of the summary: yellow when Discord refused something, green
/// otherwise.
pub fn resync_summary_color(t: &ResyncTally) -> (c: u32)
    ensures
        c == (if t.total_errors > 0 { 0xF1C40Fu32 } else { 0x57F287u32 }),
{
    if t.total_errors > 0 {
        0xF1C40F
    } else {
        0x57F287
    }
}

/// Colour of one member's report: red on errors, grey when skipped, blue
/// when roles changed, green when nothing had to change.
pub fn report_color(r: &RoleSyncReport) -> (c: u32)
    ensures
        c == (if r.errors@.len() > 0 {
            0xE74C3Cu32
        } else if r.skipped {
            0x95A5A6u32
        } else if report_changed(r) {
            0x3498DBu32
        } else {
            0x57F287u32
        }),
{
    if r.errors.len() > 0 {
        0xE74C3C
    } else if r.skipped {
        0x95A5A6
    } else if r.added_roles.len() > 0 || r.removed_roles.len() > 0 {
        0x3498DB
    } else {
        0x57F287
    }
}

pub open spec fn report_status_spec(r: &RoleSyncReport) -> Seq<char> {
    if r.skipped {
        "\u{23ed}\u{fe0f} Skipped (member ou API indisponible)"@
    } else if report_changed(r) {
        "\u{2705} Roles re-synchronises"@
    } else {
        "\u{2705} Deja a jour"@
    }
}

/// Status line of one member's report.
pub fn report_status(r: &RoleSyncReport) -> (s: String)
    ensures
        s@ == report_status_spec(r),
{
    if r.skipped {
        owned("\u{23ed}\u{fe0f} Skipped (member ou API indisponible)")
    } else if r.added_roles.len() > 0 || r.removed_roles.len() > 0 {
        owned("\u{2705} Roles re-synchronises")
    } else {
        owned("\u{2705} Deja a jour")
    }
}

/// Role mentions `<@&id>` of `ids` separated by `, `, or `_aucun_` when
/// there are none.
pub open spec fn role_list_spec(ids: Seq<u64>) -> Seq<char> {
    if ids.len() == 0 {
        "_aucun_"@
    } else {
        crate::text::join_spec(ids.map_values(|id: u64| "<@&"@ + int_text(id as int) + ">"@), ", "@)
    }
}

/// The list of roles of a report.
pub fn role_list(ids: &Vec<u64>) -> (s: String)
    ensures
        s@ == role_list_spec(ids@),
{
    if ids.len() == 0 {
        return owned("_aucun_");
    }
    let ghost items = ids@.map_values(|id: u64| "<@&"@ + int_text(id as int) + ">"@);
    let mut s = String::new();
    let n = ids.len();
    for i in 0..n
        invariant
            n == ids@.len(),
            n > 0,
            items == ids@.map_values(|id: u64| "<@&"@ + int_text(id as int) + ">"@),
            i == 0 ==> s@ == Seq::<char>::empty(),
            i > 0 ==> s@ == crate::text::join_spec(items.take(i as int), ", "@),
    {
        if i > 0 {
            push_str(&mut s, ", ");
        }
        push_str(&mut s, "<@&");
        push_u64(&mut s, ids[i]);
        push_str(&mut s, ">");
        proof {
            let t = items.take(i + 1);
            assert(t.drop_last() =~= items.take(i as int));
            assert(t.last() == items[i as int]);
            if i == 0 {
                assert(t.len() == 1);
            }
        }
    }
    assert(items.take(n as int) =~= items);
    s
}

} // verus!
