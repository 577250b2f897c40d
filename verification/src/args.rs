//! Launch-argument assembly: placeholder substitution, classpath
//! construction, and the full argument vector.

use vstd::prelude::*;
use crate::auth::Account;
use crate::config::{LaunchConfig, LauncherConfig, WindowConfig};
use crate::layout::spec_natives_dir;
use crate::maven::{get_library_path, spec_library_rel, spec_under, path_under};
use crate::rules::{evaluate_rules, library_applies, library_allowed, spec_eval_rules, Platform};
use crate::text::{
    contains_at, match_at, push_char, spec_contains, spec_dec, spec_join, spec_split_ws,
    u64_to_dec, views,
};
use crate::version::{ArgumentValue, Library, VersionInfo};

verus! {

/// The views of a substitution environment.
pub open spec fn pair_views(env: Seq<(String, String)>) -> Seq<(Seq<char>, Seq<char>)> {
    env.map_values(|p: (String, String)| (p.0@, p.1@))
}

/// The least index at or after `k` of a token that occurs in `s` at
/// position `i`, or -1 when none does.
pub open spec fn match_env_from(
    s: Seq<char>,
    env: Seq<(Seq<char>, Seq<char>)>,
    i: int,
    k: int,
) -> int
    decreases env.len() - k,
{
    if k < 0 || k >= env.len() {
        -1
    } else if contains_at(s, env[k].0, i) {
        k
    } else {
        match_env_from(s, env, i, k + 1)
    }
}

/// The least index of a token that occurs in `s` at position `i`, or -1.
pub open spec fn match_env(s: Seq<char>, env: Seq<(Seq<char>, Seq<char>)>, i: int) -> int {
    match_env_from(s, env, i, 0)
}

/// Left-to-right placeholder substitution from position `i`: at each
/// position the first matching token is replaced by its value and skipped,
/// any other character is copied.
pub open spec fn subst_from(s: Seq<char>, env: Seq<(Seq<char>, Seq<char>)>, i: int) -> Seq<char>
    decreases s.len() - i,
{
    if i < 0 || i >= s.len() {
        Seq::empty()
    } else {
        let k = match_env(s, env, i);
        if 0 <= k < env.len() && contains_at(s, env[k].0, i) && env[k].0.len() > 0 {
            env[k].1 + subst_from(s, env, i + env[k].0.len())
        } else {
            seq![s[i]] + subst_from(s, env, i + 1)
        }
    }
}

/// Left-to-right placeholder substitution over a whole string.
pub open spec fn spec_substitute(s: Seq<char>, env: Seq<(Seq<char>, Seq<char>)>) -> Seq<char> {
    subst_from(s, env, 0)
}

/// `s` with every occurrence of `pat` replaced by `rep`, left to right,
/// without rescanning the replacement.
pub open spec fn spec_replace(s: Seq<char>, pat: Seq<char>, rep: Seq<char>) -> Seq<char> {
    spec_substitute(s, seq![(pat, rep)])
}

/// The index of the first token of `env` that occurs in `s` at position
/// `i`, when one does.
fn find_match(s: &str, env: &Vec<(String, String)>, i: usize) -> (r: Option<usize>)
    requires
        i <= s@.len(),
    ensures
        match r {
            Some(k) => k < env@.len() && k == match_env(s@, pair_views(env@), i as int)
                && contains_at(s@, pair_views(env@)[k as int].0, i as int),
            None => match_env(s@, pair_views(env@), i as int) == -1,
        },
{
    let m = env.len();
    for k in 0..m
        invariant
            m == env@.len(),
            i <= s@.len(),
            match_env(s@, pair_views(env@), i as int) == match_env_from(
                s@,
                pair_views(env@),
                i as int,
                k as int,
            ),
    {
        assert(pair_views(env@)[k as int].0 == env@[k as int].0@);
        if match_at(s, env[k].0.as_str(), i) {
            return Some(k);
        }
    }
    None
}

/// Substitute every recognised token of `env` in `s`, left to right; at
/// each position the first matching token wins, and its replacement is not
/// rescanned.
pub fn substitute_tokens(s: &str, env: &Vec<(String, String)>) -> (r: String)
    ensures
        r@ == spec_substitute(s@, pair_views(env@)),
{
    let n = s.unicode_len();
    let mut r = String::new();
    let mut i: usize = 0;
    while i < n
        invariant
            n == s@.len(),
            i <= n,
            spec_substitute(s@, pair_views(env@)) == r@ + subst_from(
                s@,
                pair_views(env@),
                i as int,
            ),
        decreases n - i,
    {
        let ghost envv = pair_views(env@);
        let ghost pre = r@;
        match find_match(s, env, i) {
            Some(k) => {
                let tok_len = env[k].0.as_str().unicode_len();
                proof {
                    assert(envv[k as int].0 == env@[k as int].0@);
                    assert(contains_at(s@, envv[k as int].0, i as int));
                }
                if tok_len > 0 {
                    r.append(env[k].1.as_str());
                    proof {
                        assert(envv[k as int].1 == env@[k as int].1@);
                        assert(subst_from(s@, envv, i as int) == envv[k as int].1 + subst_from(
                            s@,
                            envv,
                            i + envv[k as int].0.len(),
                        ));
                    }
                    i = i + tok_len;
                } else {
                    push_char(&mut r, s.get_char(i));
                    proof {
                        assert(subst_from(s@, envv, i as int) == seq![s@[i as int]] + subst_from(
                            s@,
                            envv,
                            i + 1,
                        ));
                        assert(r@ =~= pre + seq![s@[i as int]]);
                    }
                    i = i + 1;
                }
            },
            None => {
                push_char(&mut r, s.get_char(i));
                proof {
                    assert(subst_from(s@, envv, i as int) == seq![s@[i as int]] + subst_from(
                        s@,
                        envv,
                        i + 1,
                    ));
                    assert(r@ =~= pre + seq![s@[i as int]]);
                }
                i = i + 1;
            },
        }
    }
    proof {
        assert(subst_from(s@, pair_views(env@), i as int) =~= Seq::<char>::empty());
    }
    r
}

/// `s` with every occurrence of `pat` replaced by `rep`, left to right.
pub fn replace_all(s: &str, pat: &str, rep: &str) -> (r: String)
    ensures
        r@ == spec_replace(s@, pat@, rep@),
{
    let mut env: Vec<(String, String)> = Vec::new();
    env.push((String::from_str(pat), String::from_str(rep)));
    let r = substitute_tokens(s, &env);
    assert(pair_views(env@) =~= seq![(pat@, rep@)]);
    r
}

/// A field value, or its safe default when the field is empty.
pub open spec fn spec_safe(v: Seq<char>, default: Seq<char>) -> Seq<char> {
    if v.len() == 0 {
        default
    } else {
        v
    }
}

/// A copy of `v`, or of the default when `v` is empty.
fn safe_field(v: &str, default: &str) -> (r: String)
    ensures
        r@ == spec_safe(v@, default@),
{
    if v.unicode_len() == 0 {
        String::from_str(default)
    } else {
        String::from_str(v)
    }
}

/// The substitution environment of one launch: the placeholder tokens and
/// their values, in a fixed order. Empty account
/// fields substitute safe defaults rather than producing malformed
/// arguments.
pub open spec fn spec_standard_env(
    account: Account,
    version: Seq<char>,
    instance_dir: Seq<char>,
    width: u32,
    height: u32,
) -> Seq<(Seq<char>, Seq<char>)> {
    seq![
        ("${auth_player_name}"@, spec_safe(account.name@, "Player"@)),
        ("${version_name}"@, version),
        ("${game_directory}"@, instance_dir),
        ("${assets_root}"@, spec_under(instance_dir, "assets"@)),
        ("${game_assets}"@, spec_under(instance_dir, "assets"@)),
        ("${auth_uuid}"@, spec_safe(account.uuid@, "00000000-0000-0000-0000-000000000000"@)),
        ("${auth_access_token}"@, spec_safe(account.access_token@, "placeholder_token"@)),
        ("${user_type}"@, spec_safe(account.account_type@, "msa"@)),
        ("${version_type}"@, "release"@),
        ("${resolution_width}"@, spec_dec(width as nat)),
        ("${resolution_height}"@, spec_dec(height as nat)),
    ]
}

/// Build the substitution environment of one launch.
pub fn standard_env(
    account: &Account,
    version: &str,
    instance_dir: &str,
    window: &WindowConfig,
) -> (r: Vec<(String, String)>)
    ensures
        pair_views(r@) == spec_standard_env(
            *account,
            version@,
            instance_dir@,
            window.width,
            window.height,
        ),
{
    let assets = path_under(instance_dir, "assets");
    let mut r: Vec<(String, String)> = Vec::new();
    r.push(
        (String::from_str("${auth_player_name}"), safe_field(account.name.as_str(), "Player")),
    );
    r.push((String::from_str("${version_name}"), String::from_str(version)));
    r.push((String::from_str("${game_directory}"), String::from_str(instance_dir)));
    r.push((String::from_str("${assets_root}"), crate::text::clone_string(&assets)));
    r.push((String::from_str("${game_assets}"), assets));
    r.push(
        (
            String::from_str("${auth_uuid}"),
            safe_field(account.uuid.as_str(), "00000000-0000-0000-0000-000000000000"),
        ),
    );
    r.push(
        (
            String::from_str("${auth_access_token}"),
            safe_field(account.access_token.as_str(), "placeholder_token"),
        ),
    );
    r.push((String::from_str("${user_type}"), safe_field(account.account_type.as_str(), "msa")));
    r.push((String::from_str("${version_type}"), String::from_str("release")));
    r.push((String::from_str("${resolution_width}"), u64_to_dec(window.width as u64)));
    r.push((String::from_str("${resolution_height}"), u64_to_dec(window.height as u64)));
    assert(pair_views(r@) =~= spec_standard_env(
        *account,
        version@,
        instance_dir@,
        window.width,
        window.height,
    ));
    r
}

/// The number of account fields that are empty and will substitute a safe
/// default, each worth a warning to the caller.
pub fn substitution_warning_count(account: &Account) -> (r: usize)
    ensures
        r == (if account.name@.len() == 0 { 1int } else { 0int }) + (if account.uuid@.len() == 0 {
            1int
        } else {
            0int
        }) + (if account.access_token@.len() == 0 { 1int } else { 0int }) + (
        if account.account_type@.len() == 0 { 1int } else { 0int }),
{
    let mut r: usize = 0;
    if account.name.as_str().unicode_len() == 0 {
        r = r + 1;
    }
    if account.uuid.as_str().unicode_len() == 0 {
        r = r + 1;
    }
    if account.access_token.as_str().unicode_len() == 0 {
        r = r + 1;
    }
    if account.account_type.as_str().unicode_len() == 0 {
        r = r + 1;
    }
    r
}

/// Substitute every launch placeholder in one argument, with the account's
/// empty fields replaced by safe defaults.
pub fn substitute_argument_variables(
    arg: &str,
    account: &Account,
    version: &str,
    instance_dir: &str,
    window: &WindowConfig,
) -> (r: String)
    ensures
        r@ == spec_substitute(
            arg@,
            spec_standard_env(*account, version@, instance_dir@, window.width, window.height),
        ),
{
    let env = standard_env(account, version, instance_dir, window);
    substitute_tokens(arg, &env)
}

/// Every string of `items`, substituted.
pub open spec fn spec_subst_all(
    items: Seq<Seq<char>>,
    env: Seq<(Seq<char>, Seq<char>)>,
) -> Seq<Seq<char>> {
    items.map_values(|t: Seq<char>| spec_substitute(t, env))
}

/// The game arguments contributed by the structured items from position
/// `i` on: a literal item's substituted value, and a conditional item's
/// substituted values when its rules allow.
pub open spec fn spec_game_items_from(
    items: Seq<ArgumentValue>,
    env: Seq<(Seq<char>, Seq<char>)>,
    os: Seq<char>,
    i: int,
) -> Seq<Seq<char>>
    decreases items.len() - i,
{
    if i < 0 || i >= items.len() {
        Seq::empty()
    } else {
        (match items[i] {
            ArgumentValue::String(s) => seq![spec_substitute(s@, env)],
            ArgumentValue::Conditional { rules, value } => if spec_eval_rules(rules@, os) {
                spec_subst_all(views(value@), env)
            } else {
                Seq::empty()
            },
        }) + spec_game_items_from(items, env, os, i + 1)
    }
}

/// The full game-argument list: the structured items when present, else the
/// whitespace-split legacy string, every token substituted; then the extra
/// per-launch game arguments, unsubstituted.
pub open spec fn spec_game_args(
    info: VersionInfo,
    env: Seq<(Seq<char>, Seq<char>)>,
    os: Seq<char>,
    extra: Seq<Seq<char>>,
) -> Seq<Seq<char>> {
    (match info.arguments {
        Option::Some(a) => spec_game_items_from(a.game@, env, os, 0),
        Option::None => match info.minecraft_arguments {
            Option::Some(m) => spec_subst_all(spec_split_ws(m@), env),
            Option::None => Seq::empty(),
        },
    }) + extra
}

/// Build the game arguments of one launch: structured items when the
/// descriptor has them, else the whitespace-split legacy string, every
/// token substituted; the per-launch extra game arguments are appended
/// last, unsubstituted.
pub fn build_game_arguments(
    info: &VersionInfo,
    launch_config: &LaunchConfig,
    instance_dir: &str,
    platform: &Platform,
) -> (r: Vec<String>)
    ensures
        views(r@) == spec_game_args(
            *info,
            spec_standard_env(
                launch_config.account,
                launch_config.version@,
                instance_dir@,
                launch_config.window_config.width,
                launch_config.window_config.height,
            ),
            platform.os@,
            views(launch_config.additional_game_args@),
        ),
{
    let env = standard_env(
        &launch_config.account,
        launch_config.version.as_str(),
        instance_dir,
        &launch_config.window_config,
    );
    let ghost envv = pair_views(env@);
    let mut r: Vec<String> = Vec::new();
    assert(views(r@) =~= Seq::<Seq<char>>::empty());
    match &info.arguments {
        Option::Some(a) => {
            let n = a.game.len();
            let ghost items = a.game@;
            for i in 0..n
                invariant
                    n == items.len(),
                    envv == pair_views(env@),
                    items == a.game@,
                    views(r@) + spec_game_items_from(items, envv, platform.os@, i as int)
                        =~= spec_game_items_from(items, envv, platform.os@, 0),
            {
                let ghost pre = views(r@);
                match &a.game[i] {
                    ArgumentValue::String(s) => {
                        r.push(substitute_tokens(s.as_str(), &env));
                        assert(views(r@) =~= pre.push(r@.last()@));
                    },
                    ArgumentValue::Conditional { rules, value } => {
                        if evaluate_rules(rules, platform) {
                            let m = value.len();
                            for j in 0..m
                                invariant
                                    m == value@.len(),
                                    envv == pair_views(env@),
                                    views(r@) =~= pre + spec_subst_all(
                                        views(value@),
                                        envv,
                                    ).subrange(0, j as int),
                            {
                                let ghost mid = views(r@);
                                r.push(substitute_tokens(value[j].as_str(), &env));
                                assert(views(r@) =~= mid.push(r@.last()@));
                                assert(views(r@) =~= pre + spec_subst_all(
                                    views(value@),
                                    envv,
                                ).subrange(0, j + 1));
                            }
                            assert(spec_subst_all(views(value@), envv).subrange(
                                0,
                                m as int,
                            ) =~= spec_subst_all(views(value@), envv));
                        }
                    },
                }
                proof {
                    assert(spec_game_items_from(items, envv, platform.os@, i as int)
                        == (match items[i as int] {
                        ArgumentValue::String(s) => seq![spec_substitute(s@, envv)],
                        ArgumentValue::Conditional { rules, value } => if spec_eval_rules(
                            rules@,
                            platform.os@,
                        ) {
                            spec_subst_all(views(value@), envv)
                        } else {
                            Seq::<Seq<char>>::empty()
                        },
                    }) + spec_game_items_from(items, envv, platform.os@, i + 1));
                }
            }
            assert(spec_game_items_from(items, envv, platform.os@, n as int)
                =~= Seq::<Seq<char>>::empty());
        },
        Option::None => {
            match &info.minecraft_arguments {
                Option::Some(m) => {
                    let toks = crate::text::split_ws(m.as_str());
                    let t = toks.len();
                    for j in 0..t
                        invariant
                            t == toks@.len(),
                            envv == pair_views(env@),
                            views(toks@) == spec_split_ws(m@),
                            m@ == (match info.minecraft_arguments {
                                Option::Some(m2) => m2@,
                                Option::None => Seq::<char>::empty(),
                            }),
                            views(r@) =~= spec_subst_all(views(toks@), envv).subrange(
                                0,
                                j as int,
                            ),
                    {
                        let ghost pre = views(r@);
                        r.push(substitute_tokens(toks[j].as_str(), &env));
                        assert(views(r@) =~= pre.push(r@.last()@));
                        assert(views(r@) =~= spec_subst_all(views(toks@), envv).subrange(
                            0,
                            j + 1,
                        ));
                    }
                    assert(spec_subst_all(views(toks@), envv).subrange(
                        0,
                        t as int,
                    ) =~= spec_subst_all(views(toks@), envv));
                },
                Option::None => {},
            }
        },
    }
    crate::text::push_all(&mut r, &launch_config.additional_game_args);
    assert(views(r@) =~= spec_game_args(
        *info,
        envv,
        platform.os@,
        views(launch_config.additional_game_args@),
    ));
    r
}

/// No character `c` occurs in the concatenation of two sequences free
/// of it.
proof fn lemma_concat_free(a: Seq<char>, b: Seq<char>, c: char)
    requires
        !a.contains(c),
        !b.contains(c),
    ensures
        !(a + b).contains(c),
{
    assert forall|idx: int| 0 <= idx < (a + b).len() implies (a + b)[idx] != c by {
        if idx < a.len() {
            assert((a + b)[idx] == a[idx]);
        } else {
            assert((a + b)[idx] == b[idx - a.len()]);
        }
    }
}

/// When some token occurs at position `i`, the scan finds one: the first
/// matching index, no later than any given match.
proof fn lemma_match_env_found(s: Seq<char>, env: Seq<(Seq<char>, Seq<char>)>, i: int, k: int, j: int)
    requires
        0 <= j <= k < env.len(),
        contains_at(s, env[k].0, i),
    ensures
        j <= match_env_from(s, env, i, j) <= k,
        contains_at(s, env[match_env_from(s, env, i, j)].0, i),
    decreases env.len() - j,
{
    if contains_at(s, env[j].0, i) {
    } else {
        lemma_match_env_found(s, env, i, k, j + 1);
    }
}

/// Substitution scrubs the marker character: when no value holds a '$',
/// every token is non-empty, and every '$' at or after position `i`
/// begins an occurrence of some token, the scan's output from `i` holds
/// no '$' at all.
proof fn lemma_subst_no_dollar(s: Seq<char>, env: Seq<(Seq<char>, Seq<char>)>, i: int)
    requires
        forall|k: int| 0 <= k < env.len() ==> !(#[trigger] env[k].1).contains('$'),
        forall|k: int| 0 <= k < env.len() ==> (#[trigger] env[k].0).len() > 0,
        forall|j: int|
            i <= j < s.len() && s[j] == '$' ==> exists|k: int|
                0 <= k < env.len() && contains_at(s, (#[trigger] env[k]).0, j),
    ensures
        !subst_from(s, env, i).contains('$'),
    decreases s.len() - i,
{
    if i < 0 || i >= s.len() {
        assert(!Seq::<char>::empty().contains('$'));
    } else {
        let k = match_env(s, env, i);
        if 0 <= k < env.len() && contains_at(s, env[k].0, i) && env[k].0.len() > 0 {
            lemma_subst_no_dollar(s, env, i + env[k].0.len());
            lemma_concat_free(env[k].1, subst_from(s, env, i + env[k].0.len()), '$');
        } else {
            if s[i] == '$' {
                let k0 = choose|k0: int|
                    0 <= k0 < env.len() && contains_at(s, (#[trigger] env[k0]).0, i);
                lemma_match_env_found(s, env, i, k0, 0);
                assert(false);
            }
            lemma_subst_no_dollar(s, env, i + 1);
            assert(!seq![s[i]].contains('$')) by {
                assert(forall|idx: int| 0 <= idx < 1 ==> seq![s[i]][idx] == s[i]);
            }
            lemma_concat_free(seq![s[i]], subst_from(s, env, i + 1), '$');
        }
    }
}

/// Law: substitution leaves no recognised token behind. When every token
/// of the environment is non-empty and begins with '$', no substituted
/// value holds a '$', and every '$' of the input begins an occurrence of
/// some token, then the substituted result holds no occurrence of any
/// token of the environment.
pub proof fn lemma_substitution_removes_tokens(s: Seq<char>, env: Seq<(Seq<char>, Seq<char>)>)
    requires
        forall|k: int|
            0 <= k < env.len() ==> (#[trigger] env[k].0).len() > 0 && env[k].0[0] == '$',
        forall|k: int| 0 <= k < env.len() ==> !(#[trigger] env[k].1).contains('$'),
        forall|j: int|
            0 <= j < s.len() && s[j] == '$' ==> exists|k: int|
                0 <= k < env.len() && contains_at(s, (#[trigger] env[k]).0, j),
    ensures
        forall|k: int|
            0 <= k < env.len() ==> !spec_contains(spec_substitute(s, env), (#[trigger] env[k]).0),
{
    lemma_subst_no_dollar(s, env, 0);
    let out = spec_substitute(s, env);
    assert forall|k: int| 0 <= k < env.len() implies !spec_contains(out, env[k].0) by {
        if spec_contains(out, env[k].0) {
            let p = choose|p: int| contains_at(out, env[k].0, p);
            assert(out.subrange(p, p + env[k].0.len() as int)[0] == env[k].0[0]);
            assert(out[p] == '$');
            assert(out.contains('$'));
        }
    }
}

/// Every token of the standard environment is non-empty and begins with
/// '$', so the no-token-remains law applies to it whenever its values are
/// free of '$'.
pub proof fn lemma_standard_env_token_shape(
    account: Account,
    version: Seq<char>,
    instance_dir: Seq<char>,
    width: u32,
    height: u32,
)
    ensures
        forall|k: int|
            0 <= k < spec_standard_env(account, version, instance_dir, width, height).len()
                ==> (#[trigger] spec_standard_env(account, version, instance_dir, width, height)[k].0).len()
                > 0 && spec_standard_env(account, version, instance_dir, width, height)[k].0[0]
                == '$',
{
    reveal_strlit("${auth_player_name}");
    reveal_strlit("${version_name}");
    reveal_strlit("${game_directory}");
    reveal_strlit("${assets_root}");
    reveal_strlit("${game_assets}");
    reveal_strlit("${auth_uuid}");
    reveal_strlit("${auth_access_token}");
    reveal_strlit("${user_type}");
    reveal_strlit("${version_type}");
    reveal_strlit("${resolution_width}");
    reveal_strlit("${resolution_height}");
    let env = spec_standard_env(account, version, instance_dir, width, height);
    assert forall|k: int| 0 <= k < env.len() implies (#[trigger] env[k].0).len() > 0
        && env[k].0[0] == '$' by {
        if k == 0 {
            assert(env[0].0 == "${auth_player_name}"@);
        } else if k == 1 {
            assert(env[1].0 == "${version_name}"@);
        } else if k == 2 {
            assert(env[2].0 == "${game_directory}"@);
        } else if k == 3 {
            assert(env[3].0 == "${assets_root}"@);
        } else if k == 4 {
            assert(env[4].0 == "${game_assets}"@);
        } else if k == 5 {
            assert(env[5].0 == "${auth_uuid}"@);
        } else if k == 6 {
            assert(env[6].0 == "${auth_access_token}"@);
        } else if k == 7 {
            assert(env[7].0 == "${user_type}"@);
        } else if k == 8 {
            assert(env[8].0 == "${version_type}"@);
        } else if k == 9 {
            assert(env[9].0 == "${resolution_width}"@);
        } else {
            assert(env[10].0 == "${resolution_height}"@);
        }
    }
}

/// The classpath separator of an OS: ';' on windows, ':' elsewhere.
pub open spec fn spec_cp_sep(os: Seq<char>) -> Seq<char> {
    if os == "windows"@ {
        ";"@
    } else {
        ":"@
    }
}

/// The classpath entries contributed by the libraries from position `i`
/// on: the artifact path of each allowed library, in descriptor order.
pub open spec fn spec_cp_entries_from(
    libs: Seq<Library>,
    libs_dir: Seq<char>,
    os: Seq<char>,
    i: int,
) -> Seq<Seq<char>>
    decreases libs.len() - i,
{
    if i < 0 || i >= libs.len() {
        Seq::empty()
    } else {
        (if library_allowed(libs[i], os) {
            seq![spec_under(libs_dir, spec_library_rel(libs[i].name@))]
        } else {
            Seq::<Seq<char>>::empty()
        }) + spec_cp_entries_from(libs, libs_dir, os, i + 1)
    }
}

/// The classpath of one launch: every allowed library's artifact path in
/// descriptor order, then the client jar path, joined with the platform
/// separator.
pub open spec fn spec_classpath(info: VersionInfo, instance_dir: Seq<char>, os: Seq<char>) -> Seq<
    char,
> {
    spec_join(
        spec_cp_entries_from(
            info.libraries@,
            crate::layout::spec_libraries_dir(instance_dir),
            os,
            0,
        ) + seq![crate::layout::spec_client_jar_path(instance_dir, info.id@)],
        spec_cp_sep(os),
    )
}

/// Build the classpath of one launch: the allowed libraries' artifact
/// paths in descriptor order, then the client jar, joined with ';' on
/// windows and ':' elsewhere.
pub fn build_classpath(info: &VersionInfo, instance_dir: &str, platform: &Platform) -> (r: String)
    ensures
        r@ == spec_classpath(*info, instance_dir@, platform.os@),
{
    let libs_dir = crate::layout::get_libraries_dir(instance_dir);
    let mut entries: Vec<String> = Vec::new();
    assert(views(entries@) =~= Seq::<Seq<char>>::empty());
    let n = info.libraries.len();
    for i in 0..n
        invariant
            n == info.libraries@.len(),
            libs_dir@ == crate::layout::spec_libraries_dir(instance_dir@),
            views(entries@) + spec_cp_entries_from(
                info.libraries@,
                libs_dir@,
                platform.os@,
                i as int,
            ) =~= spec_cp_entries_from(info.libraries@, libs_dir@, platform.os@, 0),
    {
        if library_applies(&info.libraries[i], platform) {
            let ghost pre = views(entries@);
            entries.push(get_library_path(info.libraries[i].name.as_str(), libs_dir.as_str()));
            assert(views(entries@) =~= pre.push(entries@.last()@));
        }
    }
    assert(spec_cp_entries_from(info.libraries@, libs_dir@, platform.os@, n as int)
        =~= Seq::<Seq<char>>::empty());
    let ghost pre = views(entries@);
    entries.push(crate::layout::get_client_jar_path(instance_dir, info.id.as_str()));
    assert(views(entries@) =~= pre.push(entries@.last()@));
    let sep = if crate::text::str_eq(platform.os.as_str(), "windows") { ";" } else { ":" };
    let r = crate::text::join_with(&entries, sep);
    assert(r@ =~= spec_classpath(*info, instance_dir@, platform.os@));
    r
}

/// The memory flags of one launch: `-Xms<min>m` and `-Xmx<max>m`.
pub open spec fn spec_memory_args(min: nat, max: nat) -> Seq<Seq<char>> {
    seq!["-Xms"@ + spec_dec(min) + "m"@, "-Xmx"@ + spec_dec(max) + "m"@]
}

/// The native-library system properties, all pointing at the natives
/// directory.
pub open spec fn spec_natives_args(nd: Seq<char>) -> Seq<Seq<char>> {
    seq![
        "-Djava.library.path="@ + nd,
        "-Djna.tmpdir="@ + nd,
        "-Dorg.lwjgl.system.SharedLibraryExtractPath="@ + nd,
        "-Dio.netty.native.workdir="@ + nd,
    ]
}

/// The full argument vector of one launch, in fixed order: configured JVM
/// arguments, per-launch extra JVM arguments, memory flags, the
/// native-library properties when the natives directory exists, the
/// classpath flag and string, the main class, then the game arguments.
pub open spec fn spec_launch_args(
    config: LauncherConfig,
    launch_config: LaunchConfig,
    info: VersionInfo,
    instance_dir: Seq<char>,
    os: Seq<char>,
    natives_exists: bool,
) -> Seq<Seq<char>> {
    views(config.jvm_args@) + views(launch_config.additional_jvm_args@) + spec_memory_args(
        config.memory_min as nat,
        config.memory_max as nat,
    ) + (if natives_exists {
        spec_natives_args(spec_natives_dir(instance_dir, info.id@))
    } else {
        Seq::<Seq<char>>::empty()
    }) + seq!["-cp"@, spec_classpath(info, instance_dir, os)] + seq![info.main_class@]
        + spec_game_args(
        info,
        spec_standard_env(
            launch_config.account,
            launch_config.version@,
            instance_dir,
            launch_config.window_config.width,
            launch_config.window_config.height,
        ),
        os,
        views(launch_config.additional_game_args@),
    )
}

/// One native-library property: the literal prefix followed by the natives
/// directory.
fn natives_property(prefix: &str, natives_dir: &str) -> (r: String)
    ensures
        r@ == prefix@ + natives_dir@,
{
    let mut r = String::from_str(prefix);
    r.append(natives_dir);
    r
}

/// Build the full argument vector of one launch. The caller reports
/// whether the natives directory exists on disk; the flags pointing at it
/// are emitted only then.
pub fn build_launch_arguments(
    config: &LauncherConfig,
    launch_config: &LaunchConfig,
    info: &VersionInfo,
    instance_dir: &str,
    platform: &Platform,
    natives_dir_exists: bool,
) -> (r: Vec<String>)
    ensures
        views(r@) == spec_launch_args(
            *config,
            *launch_config,
            *info,
            instance_dir@,
            platform.os@,
            natives_dir_exists,
        ),
{
    let mut r: Vec<String> = Vec::new();
    crate::text::push_all(&mut r, &config.jvm_args);
    crate::text::push_all(&mut r, &launch_config.additional_jvm_args);
    let mut xms = String::from_str("-Xms");
    let min_dec = u64_to_dec(config.memory_min as u64);
    xms.append(min_dec.as_str());
    xms.append("m");
    r.push(xms);
    let mut xmx = String::from_str("-Xmx");
    let max_dec = u64_to_dec(config.memory_max as u64);
    xmx.append(max_dec.as_str());
    xmx.append("m");
    r.push(xmx);
    let ghost after_mem = views(r@);
    assert(after_mem =~= views(config.jvm_args@) + views(launch_config.additional_jvm_args@)
        + spec_memory_args(config.memory_min as nat, config.memory_max as nat));
    if natives_dir_exists {
        let nd = crate::layout::get_natives_dir(instance_dir, info.id.as_str());
        r.push(natives_property("-Djava.library.path=", nd.as_str()));
        r.push(natives_property("-Djna.tmpdir=", nd.as_str()));
        r.push(natives_property("-Dorg.lwjgl.system.SharedLibraryExtractPath=", nd.as_str()));
        r.push(natives_property("-Dio.netty.native.workdir=", nd.as_str()));
        assert(views(r@) =~= after_mem + spec_natives_args(
            spec_natives_dir(instance_dir@, info.id@),
        ));
    }
    r.push(String::from_str("-cp"));
    r.push(build_classpath(info, instance_dir, platform));
    r.push(crate::text::clone_string(&info.main_class));
    let ghost before_game = views(r@);
    let mut game = build_game_arguments(info, launch_config, instance_dir, platform);
    r.append(&mut game);
    assert(views(r@) =~= before_game + spec_game_args(
        *info,
        spec_standard_env(
            launch_config.account,
            launch_config.version@,
            instance_dir@,
            launch_config.window_config.width,
            launch_config.window_config.height,
        ),
        platform.os@,
        views(launch_config.additional_game_args@),
    ));
    assert(views(r@) =~= spec_launch_args(
        *config,
        *launch_config,
        *info,
        instance_dir@,
        platform.os@,
        natives_dir_exists,
    ));
    r
}

} // verus!
