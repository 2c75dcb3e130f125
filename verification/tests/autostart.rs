use openfrp_launcher::autostart::{
    confirm_switch, plan_switch, settled_state, NotApplied, Switch, Unstable,
};

#[test]
fn switch_only_where_the_setting_differs() {
    assert_eq!(plan_switch(false, false), Switch::Keep);
    assert_eq!(plan_switch(true, true), Switch::Keep);
    assert_eq!(plan_switch(false, true), Switch::Enable);
    assert_eq!(plan_switch(true, false), Switch::Disable);
}

#[test]
fn switch_is_confirmed_by_reading_again() {
    assert_eq!(confirm_switch(true, true), Ok(()));
    assert_eq!(confirm_switch(false, false), Ok(()));
    assert_eq!(confirm_switch(true, false), Err(NotApplied { requested: true, observed: false }));
    assert_eq!(confirm_switch(false, true), Err(NotApplied { requested: false, observed: true }));
}

#[test]
fn two_readings_must_agree() {
    assert_eq!(settled_state(true, true), Ok(true));
    assert_eq!(settled_state(false, false), Ok(false));
    assert_eq!(settled_state(true, false), Err(Unstable));
    assert_eq!(settled_state(false, true), Err(Unstable));
}
