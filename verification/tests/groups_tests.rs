use login_audit::groups::{split_vec_4_vec, SESSION_COUNT};

fn users(n: u32) -> Vec<(u32, String)> {
    (0..n).map(|i| (i, format!("user{}", i))).collect()
}

fn ids(groups: &[Vec<(u32, String)>]) -> Vec<Vec<u32>> {
    groups.iter().map(|g| g.iter().map(|u| u.0).collect()).collect()
}

#[test]
fn users_are_dealt_round_robin() {
    let groups = split_vec_4_vec(users(5), 2);
    assert_eq!(ids(&groups), vec![vec![0, 2, 4], vec![1, 3]]);
    assert_eq!(groups[0][1].1, "user2");
}

#[test]
fn more_sessions_than_users_leaves_empty_groups() {
    let groups = split_vec_4_vec(users(3), SESSION_COUNT);
    assert_eq!(groups.len(), 8);
    assert_eq!(ids(&groups), vec![vec![0], vec![1], vec![2], vec![], vec![], vec![], vec![], vec![]]);
}

#[test]
fn no_users_no_groups_when_zero_sessions() {
    assert!(split_vec_4_vec(Vec::new(), 0).is_empty());
}

#[test]
fn every_user_lands_in_group_index_mod_n() {
    let n = 3;
    let groups = split_vec_4_vec(users(10), n);
    for j in 0..10u32 {
        let g = (j % n) as usize;
        let k = (j / n) as usize;
        assert_eq!(groups[g][k].0, j);
    }
    let total: usize = groups.iter().map(|g| g.len()).sum();
    assert_eq!(total, 10);
    assert_eq!(groups.iter().map(|g| g.len()).collect::<Vec<_>>(), vec![4, 3, 3]);
}
