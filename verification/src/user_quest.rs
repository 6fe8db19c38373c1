use vstd::prelude::*;

use crate::account::SubAccount;
use crate::data::UserPoints;

verus! {

pub fn read_quest_data(s: &SubAccount) -> (r: Option<UserPoints>)
    ensures
        r == s.quest,
{
    s.quest
}

pub fn write_quest_data(s: &mut SubAccount, data: UserPoints)
    ensures
        *final(s) == (SubAccount { quest: Some(data), ..*old(s) }),
{
    s.quest = Some(data);
}

} // verus!
