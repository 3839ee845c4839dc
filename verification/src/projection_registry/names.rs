//! The registered names are told apart by their length and three of their
//! letters.

use vstd::prelude::*;

verus! {

/// A number that differs between any two registered names.
spec fn code(name: Seq<char>) -> int {
    let n = name.len() as int;
    ((n * 128 + name[4] as int) * 128 + name[n - 5] as int) * 128 + name[n - 8] as int
}

/// The place in the registry of the name with a code.
#[verifier::opaque]
spec fn place(code: int) -> int {
    if code == 37483237 {
        0
    } else if code == 35387346 {
        1
    } else if code == 41612517 {
        2
    } else if code == 39516114 {
        3
    } else if code == 39516754 {
        4
    } else if code == 41742568 {
        5
    } else if code == 35452882 {
        6
    } else if code == 34910697 {
        7
    } else if code == 32814145 {
        8
    } else if code == 34911855 {
        9
    } else if code == 28619253 {
        10
    } else if code == 30716142 {
        11
    } else if code == 47755969 {
        12
    } else if code == 31027956 {
        13
    } else if code == 39596788 {
        14
    } else if code == 43791077 {
        15
    } else if code == 54277363 {
        16
    } else if code == 43791086 {
        17
    } else if code == 45774447 {
        18
    } else if code == 37598964 {
        19
    } else if code == 37598831 {
        20
    } else if code == 48084217 {
        21
    } else if code == 37320563 {
        22
    } else if code == 39416569 {
        23
    } else if code == 47970926 {
        24
    } else if code == 22852334 {
        25
    } else if code == 33370341 {
        26
    } else if code == 45773044 {
        27
    } else if code == 39481972 {
        28
    } else if code == 31093486 {
        29
    } else if code == 45774053 {
        30
    } else if code == 41578725 {
        31
    } else if code == 24179435 {
        32
    } else if code == 34812133 {
        33
    } else if code == 43201266 {
        34
    } else if code == 34926821 {
        35
    } else if code == 29078260 {
        36
    } else if code == 54163188 {
        37
    } else if code == 32568044 {
        38
    } else if code == 34666817 {
        39
    } else if code == 34666576 {
        40
    } else if code == 34665170 {
        41
    } else if code == 47346755 {
        42
    } else if code == 49444463 {
        43
    } else if code == 43151599 {
        44
    } else if code == 62026355 {
        45
    } else if code == 45248750 {
        46
    } else if code == 37549121 {
        47
    } else if code == 35451621 {
        48
    } else if code == 43835618 {
        49
    } else if code == 48035570 {
        50
    } else if code == 52228852 {
        51
    } else if code == 50131695 {
        52
    } else if code == 45871865 {
        53
    } else if code == 47806436 {
        54
    } else if code == 45970674 {
        55
    } else if code == 52000627 {
        56
    } else if code == 43790580 {
        57
    } else if code == 31142082 {
        58
    } else if code == 20657781 {
        59
    } else if code == 39416549 {
        60
    } else if code == 39417445 {
        61
    } else if code == 45661029 {
        62
    } else if code == 49968751 {
        63
    } else if code == 26769377 {
        64
    } else if code == 54031086 {
        65
    } else if code == 33354484 {
        66
    } else if code == 39351878 {
        67
    } else if code == 40968430 {
        68
    } else if code == 47265746 {
        69
    } else if code == 34814053 {
        70
    } else if code == 41169145 {
        71
    } else if code == 31060722 {
        72
    } else if code == 31061618 {
        73
    } else if code == 28963557 {
        74
    } else if code == 33157316 {
        75
    } else if code == 31060210 {
        76
    } else if code == 26862439 {
        77
    } else if code == 47839553 {
        78
    } else if code == 39450341 {
        79
    } else if code == 31062514 {
        80
    } else if code == 31061234 {
        81
    } else if code == 35255029 {
        82
    } else if code == 52230468 {
        83
    } else if code == 37483493 {
        84
    } else if code == 45955026 {
        85
    } else if code == 31175404 {
        86
    } else if code == 47954371 {
        87
    } else if code == 39564019 {
        88
    } else if code == 45806561 {
        89
    } else if code == 43612793 {
        90
    } else if code == 37321580 {
        91
    } else if code == 35224161 {
        92
    } else if code == 45970151 {
        93
    } else if code == 37582708 {
        94
    } else if code == 48050802 {
        95
    } else if code == 38844398 {
        96
    } else if code == 32552805 {
        97
    } else if code == 38875892 {
        98
    } else if code == 45162740 {
        99
    } else if code == 37008099 {
        100
    } else if code == 37564655 {
        101
    } else if code == 54311779 {
        102
    } else if code == 52214375 {
        103
    } else if code == 48019410 {
        104
    } else if code == 50115317 {
        105
    } else if code == 47788793 {
        106
    } else if code == 51985142 {
        107
    } else if code == 39646831 {
        108
    } else if code == 35451106 {
        109
    } else if code == 35371875 {
        110
    } else if code == 54112754 {
        111
    } else if code == 35239796 {
        112
    } else if code == 43546482 {
        113
    } else if code == 47739621 {
        114
    } else if code == 47739493 {
        115
    } else if code == 33290194 {
        116
    } else if code == 31027811 {
        117
    } else if code == 56260562 {
        118
    } else if code == 26245441 {
        119
    } else if code == 26490960 {
        120
    } else if code == 26522322 {
        121
    } else if code == 45396709 {
        122
    } else if code == 47870695 {
        123
    } else if code == 58355941 {
        124
    } else if code == 60453874 {
        125
    } else if code == 47870661 {
        126
    } else if code == 37384949 {
        127
    } else if code == 54163054 {
        128
    } else if code == 60455527 {
        129
    } else if code == 45773544 {
        130
    } else if code == 54163045 {
        131
    } else if code == 66745330 {
        132
    } else if code == 47872324 {
        133
    } else if code == 49969767 {
        134
    } else if code == 58351849 {
        135
    } else if code == 62551790 {
        136
    } else if code == 41579244 {
        137
    } else if code == 37387109 {
        138
    } else if code == 47870447 {
        139
    } else if code == 37598835 {
        140
    } else if code == 43875173 {
        141
    } else if code == 31290467 {
        142
    } else if code == 39563759 {
        143
    } else if code == 39416441 {
        144
    } else if code == 33290561 {
        145
    } else if code == 45872114 {
        146
    } else if code == 31191668 {
        147
    } else if code == 43594475 {
        148
    } else if code == 30962377 {
        149
    } else if code == 34879592 {
        150
    } else if code == 36976720 {
        151
    } else if code == 41497586 {
        152
    } else if code == 33157364 {
        153
    } else if code == 31177297 {
        154
    } else if code == 41662038 {
        155
    } else if code == 39104754 {
        156
    } else if code == 41120449 {
        157
    } else {
        -1
    }
}

#[verifier::rlimit(50)]
proof fn places_from_0(i: int)
    requires
        0 <= i < 16,
    ensures
        place(code(super::classification()[i].0)) == i,
{
    reveal(place);
    if i == 0 {
        reveal_strlit("ApprovalRequested");
        assert("ApprovalRequested"@.len() == 17);
        assert(code("ApprovalRequested"@) == 37483237);
    }
    if i == 1 {
        reveal_strlit("ApprovalResolved");
        assert("ApprovalResolved"@.len() == 16);
        assert(code("ApprovalResolved"@) == 35387346);
    }
    if i == 2 {
        reveal_strlit("CheckpointPersisted");
        assert("CheckpointPersisted"@.len() == 19);
        assert(code("CheckpointPersisted"@) == 41612517);
    }
    if i == 3 {
        reveal_strlit("CheckpointRecorded");
        assert("CheckpointRecorded"@.len() == 18);
        assert(code("CheckpointRecorded"@) == 39516114);
    }
    if i == 4 {
        reveal_strlit("CheckpointRestored");
        assert("CheckpointRestored"@.len() == 18);
        assert(code("CheckpointRestored"@) == 39516754);
    }
    if i == 5 {
        reveal_strlit("DecisionCacheWarmup");
        assert("DecisionCacheWarmup"@.len() == 19);
        assert(code("DecisionCacheWarmup"@) == 41742568);
    }
    if i == 6 {
        reveal_strlit("DecisionRecorded");
        assert("DecisionRecorded"@.len() == 16);
        assert(code("DecisionRecorded"@) == 35452882);
    }
    if i == 7 {
        reveal_strlit("EvalRubricScored");
        assert("EvalRubricScored"@.len() == 16);
        assert(code("EvalRubricScored"@) == 34910697);
    }
    if i == 8 {
        reveal_strlit("EvalRunArchived");
        assert("EvalRunArchived"@.len() == 15);
        assert(code("EvalRunArchived"@) == 32814145);
    }
    if i == 9 {
        reveal_strlit("EvalRunCompleted");
        assert("EvalRunCompleted"@.len() == 16);
        assert(code("EvalRunCompleted"@) == 34911855);
    }
    if i == 10 {
        reveal_strlit("EvalRunScored");
        assert("EvalRunScored"@.len() == 13);
        assert(code("EvalRunScored"@) == 28619253);
    }
    if i == 11 {
        reveal_strlit("EvalRunStarted");
        assert("EvalRunStarted"@.len() == 14);
        assert(code("EvalRunStarted"@) == 30716142);
    }
    if i == 12 {
        reveal_strlit("MailboxMessageAppended");
        assert("MailboxMessageAppended"@.len() == 22);
        assert(code("MailboxMessageAppended"@) == 47755969);
    }
    if i == 13 {
        reveal_strlit("ProjectCreated");
        assert("ProjectCreated"@.len() == 14);
        assert(code("ProjectCreated"@) == 31027956);
    }
    if i == 14 {
        reveal_strlit("PromptAssetCreated");
        assert("PromptAssetCreated"@.len() == 18);
        assert(code("PromptAssetCreated"@) == 39596788);
    }
    if i == 15 {
        reveal_strlit("PromptReleaseCreated");
        assert("PromptReleaseCreated"@.len() == 20);
        assert(code("PromptReleaseCreated"@) == 43791077);
    }
}

#[verifier::rlimit(50)]
proof fn places_from_16(i: int)
    requires
        16 <= i < 32,
    ensures
        place(code(super::classification()[i].0)) == i,
{
    reveal(place);
    if i == 16 {
        reveal_strlit("PromptReleaseTransitioned");
        assert("PromptReleaseTransitioned"@.len() == 25);
        assert(code("PromptReleaseTransitioned"@) == 54277363);
    }
    if i == 17 {
        reveal_strlit("PromptVersionCreated");
        assert("PromptVersionCreated"@.len() == 20);
        assert(code("PromptVersionCreated"@) == 43791086);
    }
    if i == 18 {
        reveal_strlit("ProviderCallCompleted");
        assert("ProviderCallCompleted"@.len() == 21);
        assert(code("ProviderCallCompleted"@) == 45774447);
    }
    if i == 19 {
        reveal_strlit("RecoveryAttempted");
        assert("RecoveryAttempted"@.len() == 17);
        assert(code("RecoveryAttempted"@) == 37598964);
    }
    if i == 20 {
        reveal_strlit("RecoveryCompleted");
        assert("RecoveryCompleted"@.len() == 17);
        assert(code("RecoveryCompleted"@) == 37598831);
    }
    if i == 21 {
        reveal_strlit("RecoverySummaryEmitted");
        assert("RecoverySummaryEmitted"@.len() == 22);
        assert(code("RecoverySummaryEmitted"@) == 48084217);
    }
    if i == 22 {
        reveal_strlit("RouteDecisionMade");
        assert("RouteDecisionMade"@.len() == 17);
        assert(code("RouteDecisionMade"@) == 37320563);
    }
    if i == 23 {
        reveal_strlit("RoutePolicyCreated");
        assert("RoutePolicyCreated"@.len() == 18);
        assert(code("RoutePolicyCreated"@) == 39416569);
    }
    if i == 24 {
        reveal_strlit("RunCompletionAnnotated");
        assert("RunCompletionAnnotated"@.len() == 22);
        assert(code("RunCompletionAnnotated"@) == 47970926);
    }
    if i == 25 {
        reveal_strlit("RunCreated");
        assert("RunCreated"@.len() == 10);
        assert(code("RunCreated"@) == 22852334);
    }
    if i == 26 {
        reveal_strlit("RunStateChanged");
        assert("RunStateChanged"@.len() == 15);
        assert(code("RunStateChanged"@) == 33370341);
    }
    if i == 27 {
        reveal_strlit("SessionAttemptStarted");
        assert("SessionAttemptStarted"@.len() == 21);
        assert(code("SessionAttemptStarted"@) == 45773044);
    }
    if i == 28 {
        reveal_strlit("SessionCostUpdated");
        assert("SessionCostUpdated"@.len() == 18);
        assert(code("SessionCostUpdated"@) == 39481972);
    }
    if i == 29 {
        reveal_strlit("SessionCreated");
        assert("SessionCreated"@.len() == 14);
        assert(code("SessionCreated"@) == 31093486);
    }
    if i == 30 {
        reveal_strlit("SessionOutcomeEmitted");
        assert("SessionOutcomeEmitted"@.len() == 21);
        assert(code("SessionOutcomeEmitted"@) == 45774053);
    }
    if i == 31 {
        reveal_strlit("SessionStateChanged");
        assert("SessionStateChanged"@.len() == 19);
        assert(code("SessionStateChanged"@) == 41578725);
    }
}

#[verifier::rlimit(50)]
proof fn places_from_32(i: int)
    requires
        32 <= i < 48,
    ensures
        place(code(super::classification()[i].0)) == i,
{
    reveal(place);
    if i == 32 {
        reveal_strlit("TaskCreated");
        assert("TaskCreated"@.len() == 11);
        assert(code("TaskCreated"@) == 24179435);
    }
    if i == 33 {
        reveal_strlit("TaskLeaseClaimed");
        assert("TaskLeaseClaimed"@.len() == 16);
        assert(code("TaskLeaseClaimed"@) == 34812133);
    }
    if i == 34 {
        reveal_strlit("TaskLeaseHeartbeated");
        assert("TaskLeaseHeartbeated"@.len() == 20);
        assert(code("TaskLeaseHeartbeated"@) == 43201266);
    }
    if i == 35 {
        reveal_strlit("TaskStateChanged");
        assert("TaskStateChanged"@.len() == 16);
        assert(code("TaskStateChanged"@) == 34926821);
    }
    if i == 36 {
        reveal_strlit("TenantCreated");
        assert("TenantCreated"@.len() == 13);
        assert(code("TenantCreated"@) == 29078260);
    }
    if i == 37 {
        reveal_strlit("TerminalRecoveryAttempted");
        assert("TerminalRecoveryAttempted"@.len() == 25);
        assert(code("TerminalRecoveryAttempted"@) == 54163188);
    }
    if i == 38 {
        reveal_strlit("ToolCallAmended");
        assert("ToolCallAmended"@.len() == 15);
        assert(code("ToolCallAmended"@) == 32568044);
    }
    if i == 39 {
        reveal_strlit("ToolCallApproved");
        assert("ToolCallApproved"@.len() == 16);
        assert(code("ToolCallApproved"@) == 34666817);
    }
    if i == 40 {
        reveal_strlit("ToolCallProposed");
        assert("ToolCallProposed"@.len() == 16);
        assert(code("ToolCallProposed"@) == 34666576);
    }
    if i == 41 {
        reveal_strlit("ToolCallRejected");
        assert("ToolCallRejected"@.len() == 16);
        assert(code("ToolCallRejected"@) == 34665170);
    }
    if i == 42 {
        reveal_strlit("ToolInvocationCacheHit");
        assert("ToolInvocationCacheHit"@.len() == 22);
        assert(code("ToolInvocationCacheHit"@) == 47346755);
    }
    if i == 43 {
        reveal_strlit("ToolInvocationCompleted");
        assert("ToolInvocationCompleted"@.len() == 23);
        assert(code("ToolInvocationCompleted"@) == 49444463);
    }
    if i == 44 {
        reveal_strlit("ToolInvocationFailed");
        assert("ToolInvocationFailed"@.len() == 20);
        assert(code("ToolInvocationFailed"@) == 43151599);
    }
    if i == 45 {
        reveal_strlit("ToolInvocationProgressUpdated");
        assert("ToolInvocationProgressUpdated"@.len() == 29);
        assert(code("ToolInvocationProgressUpdated"@) == 62026355);
    }
    if i == 46 {
        reveal_strlit("ToolInvocationStarted");
        assert("ToolInvocationStarted"@.len() == 21);
        assert(code("ToolInvocationStarted"@) == 45248750);
    }
    if i == 47 {
        reveal_strlit("WorkspaceArchived");
        assert("WorkspaceArchived"@.len() == 17);
        assert(code("WorkspaceArchived"@) == 37549121);
    }
}

#[verifier::rlimit(50)]
proof fn places_from_48(i: int)
    requires
        48 <= i < 64,
    ensures
        place(code(super::classification()[i].0)) == i,
{
    reveal(place);
    if i == 48 {
        reveal_strlit("WorkspaceCreated");
        assert("WorkspaceCreated"@.len() == 16);
        assert(code("WorkspaceCreated"@) == 35451621);
    }
    if i == 49 {
        reveal_strlit("WorkspaceMemberAdded");
        assert("WorkspaceMemberAdded"@.len() == 20);
        assert(code("WorkspaceMemberAdded"@) == 43835618);
    }
    if i == 50 {
        reveal_strlit("WorkspaceMemberRemoved");
        assert("WorkspaceMemberRemoved"@.len() == 22);
        assert(code("WorkspaceMemberRemoved"@) == 48035570);
    }
    if i == 51 {
        reveal_strlit("WorkspaceSnapshotCreated");
        assert("WorkspaceSnapshotCreated"@.len() == 24);
        assert(code("WorkspaceSnapshotCreated"@) == 52228852);
    }
    if i == 52 {
        reveal_strlit("WorkspaceSnapshotReaped");
        assert("WorkspaceSnapshotReaped"@.len() == 23);
        assert(code("WorkspaceSnapshotReaped"@) == 50131695);
    }
    if i == 53 {
        reveal_strlit("ApprovalPolicyCreated");
        assert("ApprovalPolicyCreated"@.len() == 21);
        assert(code("ApprovalPolicyCreated"@) == 45871865);
    }
    if i == 54 {
        reveal_strlit("BudgetThresholdCrossed");
        assert("BudgetThresholdCrossed"@.len() == 22);
        assert(code("BudgetThresholdCrossed"@) == 47806436);
    }
    if i == 55 {
        reveal_strlit("CircuitBreakerTripped");
        assert("CircuitBreakerTripped"@.len() == 21);
        assert(code("CircuitBreakerTripped"@) == 45970674);
    }
    if i == 56 {
        reveal_strlit("OrchestratorDecisionMade");
        assert("OrchestratorDecisionMade"@.len() == 24);
        assert(code("OrchestratorDecisionMade"@) == 52000627);
    }
    if i == 57 {
        reveal_strlit("PromptRolloutStarted");
        assert("PromptRolloutStarted"@.len() == 20);
        assert(code("PromptRolloutStarted"@) == 43790580);
    }
    if i == 58 {
        reveal_strlit("RunSlaBreached");
        assert("RunSlaBreached"@.len() == 14);
        assert(code("RunSlaBreached"@) == 31142082);
    }
    if i == 59 {
        reveal_strlit("RunSlaSet");
        assert("RunSlaSet"@.len() == 9);
        assert(code("RunSlaSet"@) == 20657781);
    }
    if i == 60 {
        reveal_strlit("RunTemplateCreated");
        assert("RunTemplateCreated"@.len() == 18);
        assert(code("RunTemplateCreated"@) == 39416549);
    }
    if i == 61 {
        reveal_strlit("RunTemplateDeleted");
        assert("RunTemplateDeleted"@.len() == 18);
        assert(code("RunTemplateDeleted"@) == 39417445);
    }
    if i == 62 {
        reveal_strlit("SandboxCrashRecovered");
        assert("SandboxCrashRecovered"@.len() == 21);
        assert(code("SandboxCrashRecovered"@) == 45661029);
    }
    if i == 63 {
        reveal_strlit("SessionAttemptCompleted");
        assert("SessionAttemptCompleted"@.len() == 23);
        assert(code("SessionAttemptCompleted"@) == 49968751);
    }
}

#[verifier::rlimit(50)]
proof fn places_from_64(i: int)
    requires
        64 <= i < 80,
    ensures
        place(code(super::classification()[i].0)) == i,
{
    reveal(place);
    if i == 64 {
        reveal_strlit("SignalRouted");
        assert("SignalRouted"@.len() == 12);
        assert(code("SignalRouted"@) == 26769377);
    }
    if i == 65 {
        reveal_strlit("SignalSubscriptionCreated");
        assert("SignalSubscriptionCreated"@.len() == 25);
        assert(code("SignalSubscriptionCreated"@) == 54031086);
    }
    if i == 66 {
        reveal_strlit("SnapshotCreated");
        assert("SnapshotCreated"@.len() == 15);
        assert(code("SnapshotCreated"@) == 33354484);
    }
    if i == 67 {
        reveal_strlit("SummarizerFallback");
        assert("SummarizerFallback"@.len() == 18);
        assert(code("SummarizerFallback"@) == 39351878);
    }
    if i == 68 {
        reveal_strlit("TaskDependencyAdded");
        assert("TaskDependencyAdded"@.len() == 19);
        assert(code("TaskDependencyAdded"@) == 40968430);
    }
    if i == 69 {
        reveal_strlit("TaskDependencyResolved");
        assert("TaskDependencyResolved"@.len() == 22);
        assert(code("TaskDependencyResolved"@) == 47265746);
    }
    if i == 70 {
        reveal_strlit("TaskLeaseExpired");
        assert("TaskLeaseExpired"@.len() == 16);
        assert(code("TaskLeaseExpired"@) == 34814053);
    }
    if i == 71 {
        reveal_strlit("TaskPriorityChanged");
        assert("TaskPriorityChanged"@.len() == 19);
        assert(code("TaskPriorityChanged"@) == 41169145);
    }
    if i == 72 {
        reveal_strlit("TriggerCreated");
        assert("TriggerCreated"@.len() == 14);
        assert(code("TriggerCreated"@) == 31060722);
    }
    if i == 73 {
        reveal_strlit("TriggerDeleted");
        assert("TriggerDeleted"@.len() == 14);
        assert(code("TriggerDeleted"@) == 31061618);
    }
    if i == 74 {
        reveal_strlit("TriggerDenied");
        assert("TriggerDenied"@.len() == 13);
        assert(code("TriggerDenied"@) == 28963557);
    }
    if i == 75 {
        reveal_strlit("TriggerDisabled");
        assert("TriggerDisabled"@.len() == 15);
        assert(code("TriggerDisabled"@) == 33157316);
    }
    if i == 76 {
        reveal_strlit("TriggerEnabled");
        assert("TriggerEnabled"@.len() == 14);
        assert(code("TriggerEnabled"@) == 31060210);
    }
    if i == 77 {
        reveal_strlit("TriggerFired");
        assert("TriggerFired"@.len() == 12);
        assert(code("TriggerFired"@) == 26862439);
    }
    if i == 78 {
        reveal_strlit("TriggerPendingApproval");
        assert("TriggerPendingApproval"@.len() == 22);
        assert(code("TriggerPendingApproval"@) == 47839553);
    }
    if i == 79 {
        reveal_strlit("TriggerRateLimited");
        assert("TriggerRateLimited"@.len() == 18);
        assert(code("TriggerRateLimited"@) == 39450341);
    }
}

#[verifier::rlimit(50)]
proof fn places_from_80(i: int)
    requires
        80 <= i < 96,
    ensures
        place(code(super::classification()[i].0)) == i,
{
    reveal(place);
    if i == 80 {
        reveal_strlit("TriggerResumed");
        assert("TriggerResumed"@.len() == 14);
        assert(code("TriggerResumed"@) == 31062514);
    }
    if i == 81 {
        reveal_strlit("TriggerSkipped");
        assert("TriggerSkipped"@.len() == 14);
        assert(code("TriggerSkipped"@) == 31061234);
    }
    if i == 82 {
        reveal_strlit("TriggerSuspended");
        assert("TriggerSuspended"@.len() == 16);
        assert(code("TriggerSuspended"@) == 35255029);
    }
    if i == 83 {
        reveal_strlit("WorkspaceBackendDegraded");
        assert("WorkspaceBackendDegraded"@.len() == 24);
        assert(code("WorkspaceBackendDegraded"@) == 52230468);
    }
    if i == 84 {
        reveal_strlit("ApprovalDelegated");
        assert("ApprovalDelegated"@.len() == 17);
        assert(code("ApprovalDelegated"@) == 37483493);
    }
    if i == 85 {
        reveal_strlit("AuditLogEntryRecorded");
        assert("AuditLogEntryRecorded"@.len() == 21);
        assert(code("AuditLogEntryRecorded"@) == 45955026);
    }
    if i == 86 {
        reveal_strlit("ChannelCreated");
        assert("ChannelCreated"@.len() == 14);
        assert(code("ChannelCreated"@) == 31175404);
    }
    if i == 87 {
        reveal_strlit("ChannelMessageConsumed");
        assert("ChannelMessageConsumed"@.len() == 22);
        assert(code("ChannelMessageConsumed"@) == 47954371);
    }
    if i == 88 {
        reveal_strlit("ChannelMessageSent");
        assert("ChannelMessageSent"@.len() == 18);
        assert(code("ChannelMessageSent"@) == 39564019);
    }
    if i == 89 {
        reveal_strlit("CheckpointStrategySet");
        assert("CheckpointStrategySet"@.len() == 21);
        assert(code("CheckpointStrategySet"@) == 45806561);
    }
    if i == 90 {
        reveal_strlit("CredentialKeyRotated");
        assert("CredentialKeyRotated"@.len() == 20);
        assert(code("CredentialKeyRotated"@) == 43612793);
    }
    if i == 91 {
        reveal_strlit("CredentialRevoked");
        assert("CredentialRevoked"@.len() == 17);
        assert(code("CredentialRevoked"@) == 37321580);
    }
    if i == 92 {
        reveal_strlit("CredentialStored");
        assert("CredentialStored"@.len() == 16);
        assert(code("CredentialStored"@) == 35224161);
    }
    if i == 93 {
        reveal_strlit("DefaultSettingCleared");
        assert("DefaultSettingCleared"@.len() == 21);
        assert(code("DefaultSettingCleared"@) == 45970151);
    }
    if i == 94 {
        reveal_strlit("DefaultSettingSet");
        assert("DefaultSettingSet"@.len() == 17);
        assert(code("DefaultSettingSet"@) == 37582708);
    }
    if i == 95 {
        reveal_strlit("EntitlementOverrideSet");
        assert("EntitlementOverrideSet"@.len() == 22);
        assert(code("EntitlementOverrideSet"@) == 48050802);
    }
}

#[verifier::rlimit(50)]
proof fn places_from_96(i: int)
    requires
        96 <= i < 112,
    ensures
        place(code(super::classification()[i].0)) == i,
{
    reveal(place);
    if i == 96 {
        reveal_strlit("EvalBaselineLocked");
        assert("EvalBaselineLocked"@.len() == 18);
        assert(code("EvalBaselineLocked"@) == 38844398);
    }
    if i == 97 {
        reveal_strlit("EvalBaselineSet");
        assert("EvalBaselineSet"@.len() == 15);
        assert(code("EvalBaselineSet"@) == 32552805);
    }
    if i == 98 {
        reveal_strlit("EvalDatasetCreated");
        assert("EvalDatasetCreated"@.len() == 18);
        assert(code("EvalDatasetCreated"@) == 38875892);
    }
    if i == 99 {
        reveal_strlit("EvalDatasetEntryAdded");
        assert("EvalDatasetEntryAdded"@.len() == 21);
        assert(code("EvalDatasetEntryAdded"@) == 45162740);
    }
    if i == 100 {
        reveal_strlit("EvalRubricCreated");
        assert("EvalRubricCreated"@.len() == 17);
        assert(code("EvalRubricCreated"@) == 37008099);
    }
    if i == 101 {
        reveal_strlit("EventLogCompacted");
        assert("EventLogCompacted"@.len() == 17);
        assert(code("EventLogCompacted"@) == 37564655);
    }
    if i == 102 {
        reveal_strlit("ExternalWorkerReactivated");
        assert("ExternalWorkerReactivated"@.len() == 25);
        assert(code("ExternalWorkerReactivated"@) == 54311779);
    }
    if i == 103 {
        reveal_strlit("ExternalWorkerRegistered");
        assert("ExternalWorkerRegistered"@.len() == 24);
        assert(code("ExternalWorkerRegistered"@) == 52214375);
    }
    if i == 104 {
        reveal_strlit("ExternalWorkerReported");
        assert("ExternalWorkerReported"@.len() == 22);
        assert(code("ExternalWorkerReported"@) == 48019410);
    }
    if i == 105 {
        reveal_strlit("ExternalWorkerSuspended");
        assert("ExternalWorkerSuspended"@.len() == 23);
        assert(code("ExternalWorkerSuspended"@) == 50115317);
    }
    if i == 106 {
        reveal_strlit("GuardrailPolicyCreated");
        assert("GuardrailPolicyCreated"@.len() == 22);
        assert(code("GuardrailPolicyCreated"@) == 47788793);
    }
    if i == 107 {
        reveal_strlit("GuardrailPolicyEvaluated");
        assert("GuardrailPolicyEvaluated"@.len() == 24);
        assert(code("GuardrailPolicyEvaluated"@) == 51985142);
    }
    if i == 108 {
        reveal_strlit("IngestJobCompleted");
        assert("IngestJobCompleted"@.len() == 18);
        assert(code("IngestJobCompleted"@) == 39646831);
    }
    if i == 109 {
        reveal_strlit("IngestJobStarted");
        assert("IngestJobStarted"@.len() == 16);
        assert(code("IngestJobStarted"@) == 35451106);
    }
    if i == 110 {
        reveal_strlit("LicenseActivated");
        assert("LicenseActivated"@.len() == 16);
        assert(code("LicenseActivated"@) == 35371875);
    }
    if i == 111 {
        reveal_strlit("NotificationPreferenceSet");
        assert("NotificationPreferenceSet"@.len() == 25);
        assert(code("NotificationPreferenceSet"@) == 54112754);
    }
}

#[verifier::rlimit(50)]
proof fn places_from_112(i: int)
    requires
        112 <= i < 128,
    ensures
        place(code(super::classification()[i].0)) == i,
{
    reveal(place);
    if i == 112 {
        reveal_strlit("NotificationSent");
        assert("NotificationSent"@.len() == 16);
        assert(code("NotificationSent"@) == 35239796);
    }
    if i == 113 {
        reveal_strlit("OperatorIntervention");
        assert("OperatorIntervention"@.len() == 20);
        assert(code("OperatorIntervention"@) == 43546482);
    }
    if i == 114 {
        reveal_strlit("OperatorProfileCreated");
        assert("OperatorProfileCreated"@.len() == 22);
        assert(code("OperatorProfileCreated"@) == 47739621);
    }
    if i == 115 {
        reveal_strlit("OperatorProfileUpdated");
        assert("OperatorProfileUpdated"@.len() == 22);
        assert(code("OperatorProfileUpdated"@) == 47739493);
    }
    if i == 116 {
        reveal_strlit("OutcomeRecorded");
        assert("OutcomeRecorded"@.len() == 15);
        assert(code("OutcomeRecorded"@) == 33290194);
    }
    if i == 117 {
        reveal_strlit("PauseScheduled");
        assert("PauseScheduled"@.len() == 14);
        assert(code("PauseScheduled"@) == 31027811);
    }
    if i == 118 {
        reveal_strlit("PermissionDecisionRecorded");
        assert("PermissionDecisionRecorded"@.len() == 26);
        assert(code("PermissionDecisionRecorded"@) == 56260562);
    }
    if i == 119 {
        reveal_strlit("PlanApproved");
        assert("PlanApproved"@.len() == 12);
        assert(code("PlanApproved"@) == 26245441);
    }
    if i == 120 {
        reveal_strlit("PlanProposed");
        assert("PlanProposed"@.len() == 12);
        assert(code("PlanProposed"@) == 26490960);
    }
    if i == 121 {
        reveal_strlit("PlanRejected");
        assert("PlanRejected"@.len() == 12);
        assert(code("PlanRejected"@) == 26522322);
    }
    if i == 122 {
        reveal_strlit("PlanRevisionRequested");
        assert("PlanRevisionRequested"@.len() == 21);
        assert(code("PlanRevisionRequested"@) == 45396709);
    }
    if i == 123 {
        reveal_strlit("ProviderBindingCreated");
        assert("ProviderBindingCreated"@.len() == 22);
        assert(code("ProviderBindingCreated"@) == 47870695);
    }
    if i == 124 {
        reveal_strlit("ProviderBindingStateChanged");
        assert("ProviderBindingStateChanged"@.len() == 27);
        assert(code("ProviderBindingStateChanged"@) == 58355941);
    }
    if i == 125 {
        reveal_strlit("ProviderBudgetAlertTriggered");
        assert("ProviderBudgetAlertTriggered"@.len() == 28);
        assert(code("ProviderBudgetAlertTriggered"@) == 60453874);
    }
    if i == 126 {
        reveal_strlit("ProviderBudgetExceeded");
        assert("ProviderBudgetExceeded"@.len() == 22);
        assert(code("ProviderBudgetExceeded"@) == 47870661);
    }
    if i == 127 {
        reveal_strlit("ProviderBudgetSet");
        assert("ProviderBudgetSet"@.len() == 17);
        assert(code("ProviderBudgetSet"@) == 37384949);
    }
}

#[verifier::rlimit(50)]
proof fn places_from_128(i: int)
    requires
        128 <= i < 144,
    ensures
        place(code(super::classification()[i].0)) == i,
{
    reveal(place);
    if i == 128 {
        reveal_strlit("ProviderConnectionDeleted");
        assert("ProviderConnectionDeleted"@.len() == 25);
        assert(code("ProviderConnectionDeleted"@) == 54163054);
    }
    if i == 129 {
        reveal_strlit("ProviderConnectionRegistered");
        assert("ProviderConnectionRegistered"@.len() == 28);
        assert(code("ProviderConnectionRegistered"@) == 60455527);
    }
    if i == 130 {
        reveal_strlit("ProviderHealthChecked");
        assert("ProviderHealthChecked"@.len() == 21);
        assert(code("ProviderHealthChecked"@) == 45773544);
    }
    if i == 131 {
        reveal_strlit("ProviderHealthScheduleSet");
        assert("ProviderHealthScheduleSet"@.len() == 25);
        assert(code("ProviderHealthScheduleSet"@) == 54163045);
    }
    if i == 132 {
        reveal_strlit("ProviderHealthScheduleTriggered");
        assert("ProviderHealthScheduleTriggered"@.len() == 31);
        assert(code("ProviderHealthScheduleTriggered"@) == 66745330);
    }
    if i == 133 {
        reveal_strlit("ProviderMarkedDegraded");
        assert("ProviderMarkedDegraded"@.len() == 22);
        assert(code("ProviderMarkedDegraded"@) == 47872324);
    }
    if i == 134 {
        reveal_strlit("ProviderModelRegistered");
        assert("ProviderModelRegistered"@.len() == 23);
        assert(code("ProviderModelRegistered"@) == 49969767);
    }
    if i == 135 {
        reveal_strlit("ProviderPoolConnectionAdded");
        assert("ProviderPoolConnectionAdded"@.len() == 27);
        assert(code("ProviderPoolConnectionAdded"@) == 58351849);
    }
    if i == 136 {
        reveal_strlit("ProviderPoolConnectionRemoved");
        assert("ProviderPoolConnectionRemoved"@.len() == 29);
        assert(code("ProviderPoolConnectionRemoved"@) == 62551790);
    }
    if i == 137 {
        reveal_strlit("ProviderPoolCreated");
        assert("ProviderPoolCreated"@.len() == 19);
        assert(code("ProviderPoolCreated"@) == 41579244);
    }
    if i == 138 {
        reveal_strlit("ProviderRecovered");
        assert("ProviderRecovered"@.len() == 17);
        assert(code("ProviderRecovered"@) == 37387109);
    }
    if i == 139 {
        reveal_strlit("ProviderRetryPolicySet");
        assert("ProviderRetryPolicySet"@.len() == 22);
        assert(code("ProviderRetryPolicySet"@) == 47870447);
    }
    if i == 140 {
        reveal_strlit("RecoveryEscalated");
        assert("RecoveryEscalated"@.len() == 17);
        assert(code("RecoveryEscalated"@) == 37598835);
    }
    if i == 141 {
        reveal_strlit("ResourceShareRevoked");
        assert("ResourceShareRevoked"@.len() == 20);
        assert(code("ResourceShareRevoked"@) == 43875173);
    }
    if i == 142 {
        reveal_strlit("ResourceShared");
        assert("ResourceShared"@.len() == 14);
        assert(code("ResourceShared"@) == 31290467);
    }
    if i == 143 {
        reveal_strlit("RetentionPolicySet");
        assert("RetentionPolicySet"@.len() == 18);
        assert(code("RetentionPolicySet"@) == 39563759);
    }
}

#[verifier::rlimit(50)]
proof fn places_from_144(i: int)
    requires
        144 <= i < 158,
    ensures
        place(code(super::classification()[i].0)) == i,
{
    reveal(place);
    if i == 144 {
        reveal_strlit("RoutePolicyUpdated");
        assert("RoutePolicyUpdated"@.len() == 18);
        assert(code("RoutePolicyUpdated"@) == 39416441);
    }
    if i == 145 {
        reveal_strlit("RunCostAlertSet");
        assert("RunCostAlertSet"@.len() == 15);
        assert(code("RunCostAlertSet"@) == 33290561);
    }
    if i == 146 {
        reveal_strlit("RunCostAlertTriggered");
        assert("RunCostAlertTriggered"@.len() == 21);
        assert(code("RunCostAlertTriggered"@) == 45872114);
    }
    if i == 147 {
        reveal_strlit("RunCostUpdated");
        assert("RunCostUpdated"@.len() == 14);
        assert(code("RunCostUpdated"@) == 31191668);
    }
    if i == 148 {
        reveal_strlit("ScheduledTaskCreated");
        assert("ScheduledTaskCreated"@.len() == 20);
        assert(code("ScheduledTaskCreated"@) == 43594475);
    }
    if i == 149 {
        reveal_strlit("SignalIngested");
        assert("SignalIngested"@.len() == 14);
        assert(code("SignalIngested"@) == 30962377);
    }
    if i == 150 {
        reveal_strlit("SoulPatchApplied");
        assert("SoulPatchApplied"@.len() == 16);
        assert(code("SoulPatchApplied"@) == 34879592);
    }
    if i == 151 {
        reveal_strlit("SoulPatchProposed");
        assert("SoulPatchProposed"@.len() == 17);
        assert(code("SoulPatchProposed"@) == 36976720);
    }
    if i == 152 {
        reveal_strlit("SpendAlertTriggered");
        assert("SpendAlertTriggered"@.len() == 19);
        assert(code("SpendAlertTriggered"@) == 41497586);
    }
    if i == 153 {
        reveal_strlit("SubagentSpawned");
        assert("SubagentSpawned"@.len() == 15);
        assert(code("SubagentSpawned"@) == 33157364);
    }
    if i == 154 {
        reveal_strlit("TenantQuotaSet");
        assert("TenantQuotaSet"@.len() == 14);
        assert(code("TenantQuotaSet"@) == 31177297);
    }
    if i == 155 {
        reveal_strlit("TenantQuotaViolated");
        assert("TenantQuotaViolated"@.len() == 19);
        assert(code("TenantQuotaViolated"@) == 41662038);
    }
    if i == 156 {
        reveal_strlit("ToolRecoveryPaused");
        assert("ToolRecoveryPaused"@.len() == 18);
        assert(code("ToolRecoveryPaused"@) == 39104754);
    }
    if i == 157 {
        reveal_strlit("UserMessageAppended");
        assert("UserMessageAppended"@.len() == 19);
        assert(code("UserMessageAppended"@) == 41120449);
    }
}

proof fn places_are_right(i: int)
    requires
        0 <= i < super::classification().len(),
    ensures
        place(code(super::classification()[i].0)) == i,
{
    if i < 16 {
        places_from_0(i);
    } else if i < 32 {
        places_from_16(i);
    } else if i < 48 {
        places_from_32(i);
    } else if i < 64 {
        places_from_48(i);
    } else if i < 80 {
        places_from_64(i);
    } else if i < 96 {
        places_from_80(i);
    } else if i < 112 {
        places_from_96(i);
    } else if i < 128 {
        places_from_112(i);
    } else if i < 144 {
        places_from_128(i);
    } else {
        places_from_144(i);
    }
}

/// No two entries of the registry have the same name.
pub proof fn no_event_is_registered_twice(i: int, j: int)
    requires
        0 <= i < super::classification().len(),
        0 <= j < super::classification().len(),
        super::classification()[i].0 == super::classification()[j].0,
    ensures
        i == j,
{
    places_are_right(i);
    places_are_right(j);
}

/// Looking up the name of an entry gives the status of that entry.
pub proof fn each_entry_is_found_by_its_name(i: int)
    requires
        0 <= i < super::classification().len(),
    ensures
        super::status_in(super::classification(), super::classification()[i].0) == Some(
            super::classification()[i].1,
        ),
{
    found_from(0, i);
    assert(super::classification().skip(0) =~= super::classification());
}

/// Some events are not registered.
#[verifier::rlimit(50)]
pub proof fn some_events_are_not_registered(name: Seq<char>)
    requires
        name == "KnowledgeIngestRejected"@
            || name == "KnowledgeIngestStatusUpdated"@
            || name == "KnowledgeIngestSubmitted"@
            || name == "KnowledgeProviderCapabilityChanged"@
            || name == "KnowledgeProviderConfigured"@
            || name == "KnowledgeProviderUnavailable"@
            || name == "LlmCompletionRecorded"@
            || name == "TenantRoleGranted"@
            || name == "TenantRoleRevoked"@
            || name == "TenantUpdated"@,
    ensures
        super::status_in(super::classification(), name) is None,
{
    reveal(place);
    reveal_strlit("KnowledgeIngestRejected");
    assert("KnowledgeIngestRejected"@.len() == 23);
    reveal_strlit("KnowledgeIngestStatusUpdated");
    assert("KnowledgeIngestStatusUpdated"@.len() == 28);
    reveal_strlit("KnowledgeIngestSubmitted");
    assert("KnowledgeIngestSubmitted"@.len() == 24);
    reveal_strlit("KnowledgeProviderCapabilityChanged");
    assert("KnowledgeProviderCapabilityChanged"@.len() == 34);
    reveal_strlit("KnowledgeProviderConfigured");
    assert("KnowledgeProviderConfigured"@.len() == 27);
    reveal_strlit("KnowledgeProviderUnavailable");
    assert("KnowledgeProviderUnavailable"@.len() == 28);
    reveal_strlit("LlmCompletionRecorded");
    assert("LlmCompletionRecorded"@.len() == 21);
    reveal_strlit("TenantRoleGranted");
    assert("TenantRoleGranted"@.len() == 17);
    reveal_strlit("TenantRoleRevoked");
    assert("TenantRoleRevoked"@.len() == 17);
    reveal_strlit("TenantUpdated");
    assert("TenantUpdated"@.len() == 13);
    assert(super::classification().skip(0) =~= super::classification());
    not_found_from(0, name);
}

proof fn not_found_from(start: int, name: Seq<char>)
    requires
        0 <= start <= super::classification().len(),
        place(code(name)) == -1,
    ensures
        super::status_in(super::classification().skip(start), name) is None,
    decreases super::classification().len() - start,
{
    let all = super::classification();
    if start < all.len() {
        assert(all.skip(start)[0] == all[start]);
        assert(all.skip(start).drop_first() =~= all.skip(start + 1));
        places_are_right(start);
        not_found_from(start + 1, name);
    }
}

proof fn found_from(start: int, i: int)
    requires
        0 <= start <= i < super::classification().len(),
    ensures
        super::status_in(super::classification().skip(start), super::classification()[i].0)
            == Some(super::classification()[i].1),
    decreases i - start,
{
    let all = super::classification();
    assert(all.skip(start)[0] == all[start]);
    assert(all.skip(start).drop_first() =~= all.skip(start + 1));
    if start < i {
        found_from(start + 1, i);
        if all[start].0 == all[i].0 {
            no_event_is_registered_twice(start, i);
        }
    }
}

} // verus!
