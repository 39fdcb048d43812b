use site_management::models::{User, UserWebsite, Website};

#[test]
fn websites_for_user() {
    let user = User {
        id: 1,
        username: "jorn".to_string(),
        password: String::new(),
        salt: String::new(),
        superadmin: false,
    };
    let rows = vec![
        (UserWebsite { user_id: 1, website_id: 10, admin: true }, Website { id: 10, name: "Test Site".to_string() }),
        (UserWebsite { user_id: 2, website_id: 11, admin: true }, Website { id: 11, name: "Other".to_string() }),
        (UserWebsite { user_id: 1, website_id: 12, admin: false }, Website { id: 12, name: "Blog".to_string() }),
        (UserWebsite { user_id: 1, website_id: 13, admin: false }, Website { id: 14, name: "Mismatch".to_string() }),
    ];
    let websites = user.get_websites(rows);
    assert_eq!(websites.len(), 2);
    assert_eq!(websites[0].0, true);
    assert_eq!(websites[0].1.name, "Test Site");
    assert_eq!(websites[1].0, false);
    assert_eq!(websites[1].1.id, 12);
}

#[test]
fn websites_and_members_agree() {
    let memberships = vec![
        UserWebsite { user_id: 1, website_id: 10, admin: true },
        UserWebsite { user_id: 2, website_id: 10, admin: false },
        UserWebsite { user_id: 1, website_id: 11, admin: false },
    ];
    let user = |id: i32| User { id, username: format!("u{}", id), password: String::new(), salt: String::new(), superadmin: false };
    let site = |id: i32| Website { id, name: format!("s{}", id) };
    for uid in [1, 2] {
        for wid in [10, 11] {
            let user_rows = memberships.iter().filter(|m| m.user_id == uid).map(|m| (*m, site(m.website_id))).collect();
            let site_rows = memberships.iter().filter(|m| m.website_id == wid).map(|m| (*m, user(m.user_id))).collect();
            let of_user: Vec<(bool, i32)> = user(uid).get_websites(user_rows).into_iter().filter(|(_, w)| w.id == wid).map(|(a, w)| (a, w.id)).collect();
            let of_site: Vec<(bool, i32)> = site(wid).get_users(site_rows).into_iter().filter(|(_, u)| u.id == uid).map(|(a, _)| (a, wid)).collect();
            assert_eq!(of_user, of_site);
        }
    }
}
