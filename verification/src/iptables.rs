//! Firewall rule handling: turning a rule into the exact argument list of
//! the `iptables` command, and tracking what has been applied.
//!
//! Running the command needs a process and root privileges, so execution
//! lives with the process plumbing; every argument it passes, and every
//! decision about a rule batch, is made here. A failing rule in a batch is
//! skipped and the rest still attempt.

use vstd::prelude::*;
use vstd::string::StringExecFns;
use crate::types::{Action, IptablesRule, Task, TaskPayload, TaskType};

verus! {

/// Why a firewall task was refused.
#[derive(Debug, Clone, Copy, PartialEq, Eq, Structural)]
pub enum IptablesError {
    /// The task is not a firewall update.
    InvalidTaskType,
    /// A firewall update arrived with a payload of another kind.
    InvalidPayload,
}

/// The decimal digit characters.
pub open spec fn spec_digit_char(digit: int) -> char {
    if digit == 0 {
        '0'
    } else if digit == 1 {
        '1'
    } else if digit == 2 {
        '2'
    } else if digit == 3 {
        '3'
    } else if digit == 4 {
        '4'
    } else if digit == 5 {
        '5'
    } else if digit == 6 {
        '6'
    } else if digit == 7 {
        '7'
    } else if digit == 8 {
        '8'
    } else {
        '9'
    }
}

/// The decimal spelling of a non-negative number, most significant digit
/// first, with no leading zeroes.
pub open spec fn spec_decimal(value: int) -> Seq<char>
    decreases value,
{
    if value < 10 {
        seq![spec_digit_char(value)]
    } else {
        spec_decimal(value / 10) + seq![spec_digit_char(value % 10)]
    }
}

/// One decimal digit as a string.
fn digit_string(digit: u16) -> (s: String)
    requires
        digit < 10,
    ensures
        s@ == seq![spec_digit_char(digit as int)],
{
    proof {
        reveal_strlit("0");
        reveal_strlit("1");
        reveal_strlit("2");
        reveal_strlit("3");
        reveal_strlit("4");
        reveal_strlit("5");
        reveal_strlit("6");
        reveal_strlit("7");
        reveal_strlit("8");
        reveal_strlit("9");
    }
    let s: String = if digit == 0 {
        <String as StringExecFns>::from_str("0")
    } else if digit == 1 {
        <String as StringExecFns>::from_str("1")
    } else if digit == 2 {
        <String as StringExecFns>::from_str("2")
    } else if digit == 3 {
        <String as StringExecFns>::from_str("3")
    } else if digit == 4 {
        <String as StringExecFns>::from_str("4")
    } else if digit == 5 {
        <String as StringExecFns>::from_str("5")
    } else if digit == 6 {
        <String as StringExecFns>::from_str("6")
    } else if digit == 7 {
        <String as StringExecFns>::from_str("7")
    } else if digit == 8 {
        <String as StringExecFns>::from_str("8")
    } else {
        <String as StringExecFns>::from_str("9")
    };
    proof {
        assert(s@ =~= seq![spec_digit_char(digit as int)]);
    }
    s
}

/// The decimal spelling of a port number.
pub fn port_string(value: u16) -> (s: String)
    ensures
        s@ == spec_decimal(value as int),
    decreases value,
{
    if value < 10 {
        digit_string(value)
    } else {
        let mut s = port_string(value / 10);
        let last = digit_string(value % 10);
        s.append(last.as_str());
        s
    }
}

/// The flag that selects a rule's action.
pub open spec fn spec_action_flag(action: Action) -> Seq<char> {
    match action {
        Action::Insert => "-I"@,
        Action::Append => "-A"@,
        Action::Delete => "-D"@,
    }
}

/// The exact argument list passed to the `iptables` command for one rule:
/// the action flag and chain, then each match criterion the rule carries,
/// in fixed order, then the jump target.
pub open spec fn spec_rule_args(rule: IptablesRule) -> Seq<Seq<char>> {
    seq![spec_action_flag(rule.action), rule.chain@] + (if rule.protocol is Some {
        seq!["-p"@, rule.protocol->0@]
    } else {
        Seq::<Seq<char>>::empty()
    }) + (if rule.source is Some {
        seq!["-s"@, rule.source->0@]
    } else {
        Seq::<Seq<char>>::empty()
    }) + (if rule.destination is Some {
        seq!["-d"@, rule.destination->0@]
    } else {
        Seq::<Seq<char>>::empty()
    }) + (if rule.dport is Some {
        seq!["--dport"@, spec_decimal(rule.dport->0 as int)]
    } else {
        Seq::<Seq<char>>::empty()
    }) + (if rule.sport is Some {
        seq!["--sport"@, spec_decimal(rule.sport->0 as int)]
    } else {
        Seq::<Seq<char>>::empty()
    }) + seq!["-j"@, rule.target@]
}

/// Builds the argument list for one rule, exactly as `spec_rule_args`
/// spells it.
pub fn rule_args(rule: &IptablesRule) -> (args: Vec<String>)
    ensures
        args@.map_values(|arg: String| arg@) == spec_rule_args(*rule),
{
    let mut args: Vec<String> = Vec::new();
    match rule.action {
        Action::Insert => args.push(<String as StringExecFns>::from_str("-I")),
        Action::Append => args.push(<String as StringExecFns>::from_str("-A")),
        Action::Delete => args.push(<String as StringExecFns>::from_str("-D")),
    }
    args.push(rule.chain.clone());
    match &rule.protocol {
        Some(protocol) => {
            args.push(<String as StringExecFns>::from_str("-p"));
            args.push(protocol.clone());
        },
        None => {},
    }
    match &rule.source {
        Some(source) => {
            args.push(<String as StringExecFns>::from_str("-s"));
            args.push(source.clone());
        },
        None => {},
    }
    match &rule.destination {
        Some(destination) => {
            args.push(<String as StringExecFns>::from_str("-d"));
            args.push(destination.clone());
        },
        None => {},
    }
    match rule.dport {
        Some(dport) => {
            args.push(<String as StringExecFns>::from_str("--dport"));
            args.push(port_string(dport));
        },
        None => {},
    }
    match rule.sport {
        Some(sport) => {
            args.push(<String as StringExecFns>::from_str("--sport"));
            args.push(port_string(sport));
        },
        None => {},
    }
    args.push(<String as StringExecFns>::from_str("-j"));
    args.push(rule.target.clone());
    proof {
        assert(args@.map_values(|arg: String| arg@) =~= spec_rule_args(*rule));
    }
    args
}

/// Tracks the rules this process has applied, for monitoring and
/// rollback.
pub struct IptablesManager {
    applied_rules: Vec<String>,
}

impl IptablesManager {
    /// The descriptions of the rules applied so far, oldest first.
    pub closed spec fn spec_applied(self) -> Seq<String> {
        self.applied_rules@
    }

    /// A manager with no applied rules on record.
    pub fn new() -> (manager: IptablesManager)
        ensures
            manager.spec_applied() =~= Seq::<String>::empty(),
    {
        IptablesManager { applied_rules: Vec::new() }
    }

    /// The rule batch a firewall task carries: a task of any other kind is
    /// refused, as is a firewall task whose payload is of another kind.
    pub fn rules_of_task(&self, task: Task) -> (rules: Result<Vec<IptablesRule>, IptablesError>)
        ensures
            rules is Ok <==> task.task_type == TaskType::UpdateIptables
                && task.payload is Firewall,
            rules is Ok ==> task.payload == TaskPayload::Firewall(rules->Ok_0),
            task.task_type != TaskType::UpdateIptables ==> rules == Result::<
                Vec<IptablesRule>,
                IptablesError,
            >::Err(IptablesError::InvalidTaskType),
            task.task_type == TaskType::UpdateIptables && !(task.payload is Firewall)
                ==> rules == Result::<Vec<IptablesRule>, IptablesError>::Err(
                IptablesError::InvalidPayload,
            ),
    {
        match task.task_type {
            TaskType::UpdateIptables => {
                match task.payload {
                    TaskPayload::Firewall(rules) => Ok(rules),
                    _ => Err(IptablesError::InvalidPayload),
                }
            },
            _ => Err(IptablesError::InvalidTaskType),
        }
    }

    /// Records one applied rule's description.
    pub fn record_applied(&mut self, description: String)
        ensures
            final(self).spec_applied() == old(self).spec_applied().push(description),
    {
        self.applied_rules.push(description);
    }

    /// The applied-rule descriptions so far, oldest first.
    pub fn get_applied_rules(&self) -> (rules: Vec<String>)
        ensures
            rules@.len() == self.spec_applied().len(),
            forall|i: int| 0 <= i < rules@.len() ==> rules@[i]@
                == (#[trigger] self.spec_applied()[i])@,
    {
        let mut rules: Vec<String> = Vec::new();
        let mut i: usize = 0;
        while i < self.applied_rules.len()
            invariant
                i <= self.applied_rules@.len(),
                rules@.len() == i,
                forall|j: int| 0 <= j < i ==> rules@[j]@ == (#[trigger] self.applied_rules@[j])@,
            decreases self.applied_rules@.len() - i,
        {
            rules.push(self.applied_rules[i].clone());
            i = i + 1;
        }
        rules
    }

    /// Forgets the applied-rule history.
    pub fn clear_applied_rules_history(&mut self)
        ensures
            final(self).spec_applied() =~= Seq::<String>::empty(),
    {
        self.applied_rules.clear();
    }
}

/// Strips the two header lines a rule listing starts with, keeping the
/// rule lines in order; a listing of fewer than two lines has no rules.
pub fn skip_header_lines(lines: Vec<String>) -> (rules: Vec<String>)
    ensures
        lines@.len() >= 2 ==> rules@ == lines@.skip(2),
        lines@.len() < 2 ==> rules@ == Seq::<String>::empty(),
{
    let mut rules: Vec<String> = Vec::new();
    let mut i: usize = 2;
    while i < lines.len()
        invariant
            2 <= i <= lines@.len() || (i == 2 && lines@.len() < 2),
            rules@ == if lines@.len() >= 2 {
                lines@.subrange(2, i as int)
            } else {
                Seq::<String>::empty()
            },
            i <= lines@.len() || rules@.len() == 0,
        decreases lines@.len() - i,
    {
        rules.push(lines[i].clone());
        proof {
            assert(rules@ =~= lines@.subrange(2, i + 1));
        }
        i = i + 1;
    }
    proof {
        if lines@.len() >= 2 {
            assert(rules@ =~= lines@.skip(2));
        }
    }
    rules
}

} // verus!
