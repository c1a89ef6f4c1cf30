//! Player skills and their grouping by category for display.
use vstd::prelude::*;

verus! {

/// A player skill with its properties.
pub struct PlayerSkillData {
    /// Unique skill ID.
    pub id: String,
    /// Human-readable skill name.
    pub name: String,
    /// Skill category (e.g. "Combat", "Magic", "Social").
    pub category: String,
    /// Skill modifier (positive or negative).
    pub modifier: i32,
    /// Whether the character is proficient in this skill.
    pub proficient: bool,
}

/// An exact copy of a skill.
pub fn copy_skill(s: &PlayerSkillData) -> (r: PlayerSkillData)
    ensures
        r == *s,
{
    PlayerSkillData {
        id: s.id.clone(),
        name: s.name.clone(),
        category: s.category.clone(),
        modifier: s.modifier,
        proficient: s.proficient,
    }
}

/// The skills of one category, in the order they were given.
pub struct CategorySkills {
    pub category: String,
    pub skills: Vec<PlayerSkillData>,
}

/// `a` comes before `b` in the order of their characters (code point by
/// code point, a proper prefix first), the order of `String`'s `Ord`.
pub open spec fn text_lt(a: Seq<char>, b: Seq<char>) -> bool
    decreases a.len(),
{
    if a.len() == 0 {
        b.len() > 0
    } else if b.len() == 0 {
        false
    } else if a[0] != b[0] {
        (a[0] as u32) < (b[0] as u32)
    } else {
        text_lt(a.drop_first(), b.drop_first())
    }
}

/// Different characters have different code points.
pub proof fn lemma_code_point_injective(c: char, d: char)
    ensures
        (c as u32) == (d as u32) ==> c == d,
{
}

pub proof fn lemma_text_lt_trichotomy(a: Seq<char>, b: Seq<char>)
    ensures
        text_lt(a, b) || a == b || text_lt(b, a),
        !(text_lt(a, b) && text_lt(b, a)),
        !(text_lt(a, b) && a == b),
    decreases a.len(),
{
    if a.len() > 0 && b.len() > 0 {
        if a[0] == b[0] {
            lemma_text_lt_trichotomy(a.drop_first(), b.drop_first());
            if a.drop_first() == b.drop_first() {
                assert forall|i: int| 0 <= i < a.len() implies a[i] == b[i] by {
                    if i > 0 {
                        assert(a[i] == a.drop_first()[i - 1]);
                        assert(b[i] == b.drop_first()[i - 1]);
                    }
                }
                assert(a =~= b);
            }
        } else {
            lemma_code_point_injective(a[0], b[0]);
        }
    } else if a.len() == 0 && b.len() == 0 {
        assert(a =~= b);
    }
}

/// The order is transitive.
pub proof fn lemma_text_lt_transitive(a: Seq<char>, b: Seq<char>, c: Seq<char>)
    requires
        text_lt(a, b),
        text_lt(b, c),
    ensures
        text_lt(a, c),
    decreases a.len(),
{
    if a.len() > 0 && b.len() > 0 && c.len() > 0 && a[0] == b[0] && b[0] == c[0] {
        lemma_text_lt_transitive(a.drop_first(), b.drop_first(), c.drop_first());
    }
}

/// Whether `a` comes before `b` in the order of their characters.
pub fn str_lt(a: &str, b: &str) -> (r: bool)
    ensures
        r == text_lt(a@, b@),
{
    let va = crate::text::chars_of(a);
    let vb = crate::text::chars_of(b);
    let mut i: usize = 0;
    assert(a@.skip(0) =~= a@);
    assert(b@.skip(0) =~= b@);
    while i < va.len() && i < vb.len() && va[i] == vb[i]
        invariant
            i <= va@.len(),
            i <= vb@.len(),
            va@ == a@,
            vb@ == b@,
            text_lt(a@, b@) == text_lt(a@.skip(i as int), b@.skip(i as int)),
        decreases va.len() - i,
    {
        proof {
            let x = a@.skip(i as int);
            let y = b@.skip(i as int);
            assert(x.drop_first() =~= a@.skip(i + 1));
            assert(y.drop_first() =~= b@.skip(i + 1));
        }
        i = i + 1;
    }
    if i == va.len() {
        i < vb.len()
    } else if i == vb.len() {
        false
    } else {
        (va[i] as u32) < (vb[i] as u32)
    }
}

/// The skills grouped by category: one group per category, the categories
/// in increasing order (as a `BTreeMap` keyed by category walks them), each
/// group holding the skills of its category in the order given.
pub open spec fn grouped_by_category(skills: Seq<PlayerSkillData>, groups: Seq<CategorySkills>) -> bool {
    &&& forall|a: int, b: int|
        0 <= a < b < groups.len() ==> text_lt(#[trigger] groups[a].category@, #[trigger] groups[b].category@)
    &&& forall|k: int|
        0 <= k < groups.len() ==> #[trigger] groups[k].skills@ == skills.filter(
            |s: PlayerSkillData| s.category@ == groups[k].category@,
        )
    &&& forall|k: int| 0 <= k < groups.len() ==> #[trigger] groups[k].skills@.len() > 0
    &&& forall|j: int|
        0 <= j < skills.len() ==> exists|k: int|
            0 <= k < groups.len() && #[trigger] groups[k].category@ == (#[trigger] skills[j]).category@
}


/// Skills of category `c`.
pub open spec fn in_category(c: Seq<char>) -> spec_fn(PlayerSkillData) -> bool {
    |s: PlayerSkillData| s.category@ == c
}

/// The keys of the groups are all different.
proof fn lemma_sorted_distinct(groups: Seq<CategorySkills>, a: int, b: int)
    requires
        forall|x: int, y: int|
            0 <= x < y < groups.len() ==> text_lt(#[trigger] groups[x].category@, #[trigger] groups[y].category@),
        0 <= a < groups.len(),
        0 <= b < groups.len(),
        a != b,
    ensures
        groups[a].category@ != groups[b].category@,
{
    if a < b {
        lemma_text_lt_trichotomy(groups[a].category@, groups[b].category@);
    } else {
        lemma_text_lt_trichotomy(groups[b].category@, groups[a].category@);
    }
}

/// No skill of a category that no skill has.
proof fn lemma_filter_none(skills: Seq<PlayerSkillData>, c: Seq<char>)
    requires
        forall|j: int| 0 <= j < skills.len() ==> (#[trigger] skills[j]).category@ != c,
    ensures
        skills.filter(in_category(c)) == Seq::<PlayerSkillData>::empty(),
{
    let f = skills.filter(in_category(c));
    if f.len() > 0 {
        skills.lemma_filter_pred(in_category(c), 0);
        assert(f.contains(f[0]));
        skills.lemma_filter_contains_rev(in_category(c), f[0]);
        let j = choose|j: int| 0 <= j < skills.len() && skills[j] == f[0];
        assert(skills[j].category@ == c);
    }
    assert(f =~= Seq::<PlayerSkillData>::empty());
}

/// Groups the skills by category, categories in increasing order, each
/// group's skills in the order given.
pub fn group_skills_by_category(skills: &Vec<PlayerSkillData>) -> (r: Vec<CategorySkills>)
    ensures
        grouped_by_category(skills@, r@),
{
    let mut groups: Vec<CategorySkills> = Vec::new();
    let mut i: usize = 0;
    assert(skills@.take(0) =~= Seq::<PlayerSkillData>::empty());
    while i < skills.len()
        invariant
            i <= skills@.len(),
            grouped_by_category(skills@.take(i as int), groups@),
        decreases skills.len() - i,
    {
        let s = &skills[i];
        let ghost pre = skills@.take(i as int);
        let ghost post = skills@.take(i + 1);
        let ghost old_groups = groups@;
        proof {
            assert(post.drop_last() =~= pre);
            assert(post.last() == *s);
            assert forall|k: int| 0 <= k < old_groups.len() implies #[trigger] old_groups[k].skills@ == pre.filter(
                in_category(old_groups[k].category@),
            ) by {
                assert(in_category(old_groups[k].category@) =~= (|x: PlayerSkillData| x.category@
                    == old_groups[k].category@));
            }
        }
        let mut p: usize = 0;
        while p < groups.len() && str_lt(groups[p].category.as_str(), s.category.as_str())
            invariant
                p <= groups@.len(),
                groups@ == old_groups,
                forall|q: int| 0 <= q < p ==> text_lt(#[trigger] groups@[q].category@, s.category@),
            decreases groups.len() - p,
        {
            p = p + 1;
        }
        if p < groups.len() && groups[p].category == s.category {
            let ghost key = s.category@;
            groups[p].skills.push(copy_skill(s));
            proof {
                assert forall|k: int| 0 <= k < groups@.len() implies #[trigger] groups@[k].skills@ == post.filter(
                    |x: PlayerSkillData| x.category@ == groups@[k].category@,
                ) by {
                    let c = groups@[k].category@;
                    assert(in_category(c) =~= (|x: PlayerSkillData| x.category@ == c));
                    crate::seqs::lemma_filter_step(skills@, i as int, in_category(c));
                    if k != p {
                        lemma_sorted_distinct(old_groups, k, p as int);
                    }
                }
                assert forall|j: int| 0 <= j < post.len() implies exists|k: int|
                    0 <= k < groups@.len() && #[trigger] groups@[k].category@ == (#[trigger] post[j]).category@ by {
                    if j < pre.len() {
                        assert(post[j] == pre[j]);
                        let k = choose|k: int|
                            0 <= k < old_groups.len() && #[trigger] old_groups[k].category@ == (#[trigger] pre[j]).category@;
                        assert(groups@[k].category@ == post[j].category@);
                    } else {
                        assert(groups@[p as int].category@ == post[j].category@);
                    }
                }
            }
        } else {
            let ghost key = s.category@;
            proof {
                assert forall|q: int| 0 <= q < old_groups.len() implies #[trigger] old_groups[q].category@ != key by {
                    if q < p {
                        lemma_text_lt_trichotomy(old_groups[q].category@, key);
                    } else {
                        lemma_text_lt_trichotomy(old_groups[p as int].category@, key);
                        if q > p {
                            lemma_text_lt_trichotomy(old_groups[p as int].category@, old_groups[q].category@);
                            lemma_text_lt_trichotomy(key, old_groups[q].category@);
                            lemma_text_lt_transitive(key, old_groups[p as int].category@, old_groups[q].category@);
                        }
                    }
                }
                assert forall|j: int| 0 <= j < pre.len() implies (#[trigger] pre[j]).category@ != key by {
                    let k = choose|k: int|
                        0 <= k < old_groups.len() && #[trigger] old_groups[k].category@ == (#[trigger] pre[j]).category@;
                    assert(old_groups[k].category@ != key);
                }
                lemma_filter_none(pre, key);
            }
            let mut v: Vec<PlayerSkillData> = Vec::new();
            v.push(copy_skill(s));
            groups.insert(p, CategorySkills { category: s.category.clone(), skills: v });
            proof {
                let g = groups@;
                assert(g.len() == old_groups.len() + 1);
                assert forall|k: int| 0 <= k < g.len() implies #[trigger] g[k] == (if k < p {
                    old_groups[k]
                } else if k == p {
                    g[p as int]
                } else {
                    old_groups[k - 1]
                }) by {}
                assert forall|a: int, b: int|
                    0 <= a < b < g.len() implies text_lt(#[trigger] g[a].category@, #[trigger] g[b].category@) by {
                    if b < p {
                    } else if a < p && b == p {
                    } else if a < p && b > p {
                        assert(text_lt(old_groups[a].category@, old_groups[b - 1].category@));
                    } else if a == p {
                        lemma_text_lt_trichotomy(old_groups[p as int].category@, key);
                        if b - 1 > p {
                            lemma_text_lt_transitive(key, old_groups[p as int].category@, old_groups[b - 1].category@);
                        }
                    } else {
                        assert(text_lt(old_groups[a - 1].category@, old_groups[b - 1].category@));
                    }
                }
                assert forall|k: int| 0 <= k < g.len() implies #[trigger] g[k].skills@ == post.filter(
                    |x: PlayerSkillData| x.category@ == g[k].category@,
                ) by {
                    let c = g[k].category@;
                    assert(in_category(c) =~= (|x: PlayerSkillData| x.category@ == c));
                    crate::seqs::lemma_filter_step(skills@, i as int, in_category(c));
                    if k == p {
                        assert(g[k].skills@ =~= seq![*s]);
                        assert(pre.filter(in_category(key)).push(*s) =~= seq![*s]);
                    } else if k < p {
                        assert(old_groups[k].category@ != key);
                    } else {
                        assert(old_groups[k - 1].category@ != key);
                    }
                }
                assert forall|j: int| 0 <= j < post.len() implies exists|k: int|
                    0 <= k < g.len() && #[trigger] g[k].category@ == (#[trigger] post[j]).category@ by {
                    if j < pre.len() {
                        assert(post[j] == pre[j]);
                        let k = choose|k: int|
                            0 <= k < old_groups.len() && #[trigger] old_groups[k].category@ == (#[trigger] pre[j]).category@;
                        if k < p {
                            assert(g[k].category@ == post[j].category@);
                        } else {
                            assert(g[k + 1].category@ == post[j].category@);
                        }
                    } else {
                        assert(g[p as int].category@ == post[j].category@);
                    }
                }
            }
        }
        i = i + 1;
    }
    assert(skills@.take(skills@.len() as int) =~= skills@);
    groups
}


// ---------------------------------------------------------------------------
// The skills panel of the world settings
// ---------------------------------------------------------------------------

/// The category of a skill in a world's rule system.
#[derive(PartialEq, Eq, Structural, Clone, Copy, Debug)]
pub enum SkillCategory {
    Physical,
    Mental,
    Social,
    Interpersonal,
    Investigation,
    Academic,
    Practical,
    Combat,
    Approach,
    Aspect,
    Other,
    Custom,
}

/// A skill of a world, as the skills panel edits it.
pub struct SkillData {
    pub id: String,
    pub world_id: String,
    pub name: String,
    pub description: String,
    pub category: SkillCategory,
    pub base_attribute: Option<String>,
    pub is_custom: bool,
    pub is_hidden: bool,
    /// Position within its category.
    pub order: u32,
}

/// The position of a category in the panel.
pub open spec fn category_rank(c: SkillCategory) -> int {
    match c {
        SkillCategory::Physical => 0,
        SkillCategory::Mental => 1,
        SkillCategory::Social => 2,
        SkillCategory::Interpersonal => 3,
        SkillCategory::Investigation => 4,
        SkillCategory::Academic => 5,
        SkillCategory::Practical => 6,
        SkillCategory::Combat => 7,
        SkillCategory::Approach => 8,
        SkillCategory::Aspect => 9,
        SkillCategory::Other => 10,
        SkillCategory::Custom => 11,
    }
}

/// The category at a position of the panel.
pub open spec fn category_at(rank: int) -> SkillCategory {
    if rank == 0 { SkillCategory::Physical }
    else if rank == 1 { SkillCategory::Mental }
    else if rank == 2 { SkillCategory::Social }
    else if rank == 3 { SkillCategory::Interpersonal }
    else if rank == 4 { SkillCategory::Investigation }
    else if rank == 5 { SkillCategory::Academic }
    else if rank == 6 { SkillCategory::Practical }
    else if rank == 7 { SkillCategory::Combat }
    else if rank == 8 { SkillCategory::Approach }
    else if rank == 9 { SkillCategory::Aspect }
    else if rank == 10 { SkillCategory::Other }
    else { SkillCategory::Custom }
}

/// The category at a position of the panel.
fn category_of_rank(rank: u32) -> (c: SkillCategory)
    requires
        rank < 12,
    ensures
        c == category_at(rank as int),
        category_rank(c) == rank,
{
    match rank {
        0 => SkillCategory::Physical,
        1 => SkillCategory::Mental,
        2 => SkillCategory::Social,
        3 => SkillCategory::Interpersonal,
        4 => SkillCategory::Investigation,
        5 => SkillCategory::Academic,
        6 => SkillCategory::Practical,
        7 => SkillCategory::Combat,
        8 => SkillCategory::Approach,
        9 => SkillCategory::Aspect,
        10 => SkillCategory::Other,
        _ => SkillCategory::Custom,
    }
}

/// An exact copy of a skill.
pub fn copy_skill_data(s: &SkillData) -> (r: SkillData)
    ensures
        r == *s,
{
    SkillData {
        id: s.id.clone(),
        world_id: s.world_id.clone(),
        name: s.name.clone(),
        description: s.description.clone(),
        category: s.category,
        base_attribute: crate::copy::copy_opt_string(&s.base_attribute),
        is_custom: s.is_custom,
        is_hidden: s.is_hidden,
        order: s.order,
    }
}

/// Skills with position `o`.
pub open spec fn at_order(o: u32) -> spec_fn(SkillData) -> bool {
    |s: SkillData| s.order == o
}

/// `r` is `s` sorted by position, keeping the order of skills with equal
/// positions (what a stable sort by position gives).
pub open spec fn stably_sorted(s: Seq<SkillData>, r: Seq<SkillData>) -> bool {
    &&& r.len() == s.len()
    &&& forall|i: int, j: int| 0 <= i < j < r.len() ==> (#[trigger] r[i]).order <= (#[trigger] r[j]).order
    &&& forall|o: u32| #[trigger] r.filter(at_order(o)) == s.filter(at_order(o))
}

/// Filtering a concatenation filters each part.
proof fn lemma_filter_concat(a: Seq<SkillData>, b: Seq<SkillData>, p: spec_fn(SkillData) -> bool)
    ensures
        (a + b).filter(p) == a.filter(p) + b.filter(p),
{
    Seq::<SkillData>::filter_distributes_over_add(a, b, p);
}

/// Sorts skills by position; skills with equal positions keep their order.
pub fn sort_by_order(v: Vec<SkillData>) -> (r: Vec<SkillData>)
    ensures
        stably_sorted(v@, r@),
{
    let mut r: Vec<SkillData> = Vec::new();
    let mut i: usize = 0;
    assert forall|o: u32| #[trigger] r@.filter(at_order(o)) == v@.take(0).filter(at_order(o)) by {
        assert(v@.take(0) =~= Seq::<SkillData>::empty());
        assert(r@ =~= Seq::<SkillData>::empty());
    }
    while i < v.len()
        invariant
            i <= v@.len(),
            stably_sorted(v@.take(i as int), r@),
        decreases v.len() - i,
    {
        let x = copy_skill_data(&v[i]);
        let mut p: usize = 0;
        while p < r.len() && r[p].order <= x.order
            invariant
                p <= r@.len(),
                forall|q: int| 0 <= q < p ==> (#[trigger] r@[q]).order <= x.order,
            decreases r.len() - p,
        {
            p = p + 1;
        }
        let ghost old_r = r@;
        let ghost pre = v@.take(i as int);
        proof {
            assert(v@.take(i + 1) =~= pre.push(x));
            assert forall|q: int| p <= q < old_r.len() implies (#[trigger] old_r[q]).order > x.order by {
                if q > p {
                    assert(old_r[p as int].order <= old_r[q].order);
                }
            }
        }
        r.insert(p, x);
        proof {
            let pre_part = old_r.subrange(0, p as int);
            let post_part = old_r.subrange(p as int, old_r.len() as int);
            assert(old_r =~= pre_part + post_part);
            assert(r@ =~= pre_part + seq![x] + post_part);
            assert forall|i2: int, j2: int| 0 <= i2 < j2 < r@.len() implies (#[trigger] r@[i2]).order
                <= (#[trigger] r@[j2]).order by {
                if j2 < p {
                    assert(r@[i2] == old_r[i2] && r@[j2] == old_r[j2]);
                } else if j2 == p {
                    assert(r@[i2] == old_r[i2]);
                } else if i2 < p {
                    assert(r@[i2] == old_r[i2] && r@[j2] == old_r[j2 - 1]);
                } else if i2 == p {
                    assert(r@[j2] == old_r[j2 - 1]);
                } else {
                    assert(r@[i2] == old_r[i2 - 1] && r@[j2] == old_r[j2 - 1]);
                }
            }
            assert forall|o: u32| #[trigger] r@.filter(at_order(o)) == v@.take(i + 1).filter(at_order(o)) by {
                let f = at_order(o);
                lemma_filter_concat(pre_part + seq![x], post_part, f);
                lemma_filter_concat(pre_part, seq![x], f);
                lemma_filter_concat(pre_part, post_part, f);
                lemma_filter_concat(pre, seq![x], f);
                assert(pre.push(x) =~= pre + seq![x]);
                reveal_with_fuel(Seq::<_>::filter, 2);
                assert(seq![x].drop_last() =~= Seq::<SkillData>::empty());
                if x.order == o {
                    assert(post_part.filter(f) =~= Seq::<SkillData>::empty()) by {
                        if post_part.filter(f).len() > 0 {
                            post_part.lemma_filter_pred(f, 0);
                            assert(post_part.filter(f).contains(post_part.filter(f)[0]));
                            post_part.lemma_filter_contains_rev(f, post_part.filter(f)[0]);
                            let q = choose|q: int| 0 <= q < post_part.len() && post_part[q] == post_part.filter(f)[0];
                            assert(old_r[p + q].order > x.order);
                        }
                    }
                    assert(seq![x].filter(f) =~= seq![x]);
                } else {
                    assert(seq![x].filter(f) =~= Seq::<SkillData>::empty());
                }
            }
        }
        i = i + 1;
    }
    assert(v@.take(v@.len() as int) =~= v@);
    r
}

/// A skill is shown: not hidden, or hidden ones are shown.
pub open spec fn shown(s: SkillData, show_hidden: bool) -> bool {
    !s.is_hidden || show_hidden
}

/// The shown skills of category `c`, in the order given.
pub open spec fn shown_in(c: SkillCategory, show_hidden: bool) -> spec_fn(SkillData) -> bool {
    |s: SkillData| shown(s, show_hidden) && s.category == c
}

/// The panel's groups: the categories that have a shown skill, in the
/// panel's category order, each with its shown skills sorted by position
/// (equal positions in the order given).
pub open spec fn panel_groups(skills: Seq<SkillData>, show_hidden: bool, r: Seq<(SkillCategory, Vec<SkillData>)>) -> bool {
    &&& forall|a: int, b: int|
        0 <= a < b < r.len() ==> category_rank((#[trigger] r[a]).0) < category_rank((#[trigger] r[b]).0)
    &&& forall|k: int|
        0 <= k < r.len() ==> {
            &&& (#[trigger] r[k]).1@.len() > 0
            &&& stably_sorted(skills.filter(shown_in(r[k].0, show_hidden)), r[k].1@)
        }
    &&& forall|c: SkillCategory|
        skills.filter(#[trigger] shown_in(c, show_hidden)).len() > 0 ==> exists|k: int|
            0 <= k < r.len() && (#[trigger] r[k]).0 == c
}

/// The skills of a category that are shown, in the order given.
fn shown_of_category(skills: &Vec<SkillData>, c: SkillCategory, show_hidden: bool) -> (r: Vec<SkillData>)
    ensures
        r@ == skills@.filter(shown_in(c, show_hidden)),
{
    let ghost pred = shown_in(c, show_hidden);
    let mut r: Vec<SkillData> = Vec::new();
    let mut i: usize = 0;
    proof {
        reveal_with_fuel(Seq::<_>::filter, 1);
    }
    assert(skills@.take(0) =~= Seq::<SkillData>::empty());
    while i < skills.len()
        invariant
            pred == shown_in(c, show_hidden),
            i <= skills@.len(),
            r@ == skills@.take(i as int).filter(pred),
        decreases skills.len() - i,
    {
        proof {
            crate::seqs::lemma_filter_step(skills@, i as int, pred);
        }
        if (!skills[i].is_hidden || show_hidden) && skills[i].category == c {
            r.push(copy_skill_data(&skills[i]));
        }
        i = i + 1;
    }
    assert(skills@.take(skills@.len() as int) =~= skills@);
    r
}

/// The skills panel's groups: categories with a shown skill, in the panel's
/// order, each with its shown skills sorted by position.
pub fn skills_by_category(skills: &Vec<SkillData>, show_hidden: bool) -> (r: Vec<(SkillCategory, Vec<SkillData>)>)
    ensures
        panel_groups(skills@, show_hidden, r@),
{
    let mut r: Vec<(SkillCategory, Vec<SkillData>)> = Vec::new();
    let mut rank: u32 = 0;
    while rank < 12
        invariant
            rank <= 12,
            forall|k: int| 0 <= k < r@.len() ==> category_rank((#[trigger] r@[k]).0) < rank,
            forall|a: int, b: int|
                0 <= a < b < r@.len() ==> category_rank((#[trigger] r@[a]).0) < category_rank((#[trigger] r@[b]).0),
            forall|k: int|
                0 <= k < r@.len() ==> {
                    &&& (#[trigger] r@[k]).1@.len() > 0
                    &&& stably_sorted(skills@.filter(shown_in(r@[k].0, show_hidden)), r@[k].1@)
                },
            forall|c: SkillCategory|
                category_rank(c) < rank && skills@.filter(#[trigger] shown_in(c, show_hidden)).len() > 0
                    ==> exists|k: int| 0 <= k < r@.len() && (#[trigger] r@[k]).0 == c,
        decreases 12 - rank,
    {
        let c = category_of_rank(rank);
        let shown_skills = shown_of_category(skills, c, show_hidden);
        let sorted = sort_by_order(shown_skills);
        if sorted.len() > 0 {
            let ghost old_r = r@;
            r.push((c, sorted));
            proof {
                assert forall|c2: SkillCategory|
                    category_rank(c2) < rank + 1 && skills@.filter(#[trigger] shown_in(c2, show_hidden)).len() > 0
                        implies exists|k: int| 0 <= k < r@.len() && (#[trigger] r@[k]).0 == c2 by {
                    if category_rank(c2) < rank {
                        let k = choose|k: int| 0 <= k < old_r.len() && (#[trigger] old_r[k]).0 == c2;
                        assert(r@[k].0 == c2);
                    } else {
                        assert(c2 == c);
                        assert(r@[old_r.len() as int].0 == c2);
                    }
                }
            }
        } else {
            proof {
                assert forall|c2: SkillCategory|
                    category_rank(c2) < rank + 1 && skills@.filter(#[trigger] shown_in(c2, show_hidden)).len() > 0
                        implies exists|k: int| 0 <= k < r@.len() && (#[trigger] r@[k]).0 == c2 by {
                    if category_rank(c2) == rank {
                        assert(c2 == c);
                    }
                }
            }
        }
        rank = rank + 1;
    }
    r
}

/// The panel lists categories in a fixed order: physical, mental, social,
/// interpersonal, investigation, academic, practical, combat, approach,
/// aspect, other, custom; so two categories never share a place.
pub proof fn law_category_order(a: SkillCategory, b: SkillCategory)
    ensures
        category_rank(SkillCategory::Physical) < category_rank(SkillCategory::Mental) < category_rank(SkillCategory::Social) < category_rank(SkillCategory::Interpersonal) < category_rank(SkillCategory::Investigation) < category_rank(SkillCategory::Academic) < category_rank(SkillCategory::Practical) < category_rank(SkillCategory::Combat) < category_rank(SkillCategory::Approach) < category_rank(SkillCategory::Aspect) < category_rank(SkillCategory::Other) < category_rank(SkillCategory::Custom),
        a != b ==> category_rank(a) != category_rank(b),
        category_at(category_rank(a)) == a,
{
}

/// Category names are ordered character by character: a name whose first
/// character has the smaller code point comes first, a name that starts
/// another comes before it, and a common first character is passed over.
pub proof fn law_text_order(a: Seq<char>, b: Seq<char>, c: char)
    ensures
        (a.len() > 0 && b.len() > 0 && (a[0] as u32) < (b[0] as u32)) ==> text_lt(a, b),
        a.len() < b.len() && a == b.take(a.len() as int) ==> text_lt(a, b),
        text_lt(seq![c] + a, seq![c] + b) == text_lt(a, b),
        !text_lt(a, a),
    decreases a.len(),
{
    assert((seq![c] + a).drop_first() =~= a);
    assert((seq![c] + b).drop_first() =~= b);
    if a.len() > 0 && a.len() < b.len() && a == b.take(a.len() as int) {
        assert(a[0] == b[0]);
        assert(a.drop_first() == b.drop_first().take(a.drop_first().len() as int));
        law_text_order(a.drop_first(), b.drop_first(), c);
    }
    if a.len() > 0 {
        law_text_order(a.drop_first(), a.drop_first(), c);
    }
}

/// Hidden skills are shown only when hidden ones are asked for; others
/// always; a category lists exactly its own shown skills.
pub proof fn law_hidden_skills(s: SkillData, c: SkillCategory, show_hidden: bool)
    ensures
        shown(s, true),
        shown(s, false) == !s.is_hidden,
        shown_in(c, show_hidden)(s) == (shown(s, show_hidden) && s.category == c),
{
}

} // verus!
