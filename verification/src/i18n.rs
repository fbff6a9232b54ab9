//! Interface languages and the text of each interface message in each of
//! them.
use vstd::prelude::*;
use crate::text::{starts_with, starts_with_str, text_eq, to_ascii_lowercase, trim, trim_str, ascii_lowercase};

verus! {

/// A language of the interface.
#[derive(Clone, Copy, Debug, PartialEq, Eq, Structural)]
pub enum Language {
    English,
    SimplifiedChinese,
}

/// A message of the interface, independent of language.
#[derive(Clone, Copy, Debug, PartialEq, Eq, Structural)]
pub enum Message {
    Active,
    ActiveProfile,
    AddLocalProfile,
    AddSubscription,
    Apply,
    Back,
    BlankForAutomatic,
    Cancel,
    CheckAction,
    CheckUpdateCore,
    CheckUpdateCoreDetail,
    CheckUpdateCoreQuestion,
    CheckUpdateCoreSummary,
    Choose,
    ChooseLanguage,
    Code,
    CommandCanceledByUser,
    CommandCompleted,
    CommandCompletedNoOutput,
    CommandFailed,
    CommandFailedLine,
    CommandLabel,
    CommandRunning,
    ConfigPath,
    ConfigPathRequired,
    ConfirmAction,
    ConfirmStatus,
    Controller,
    ControllerModeLoaded,
    ControllerState,
    ControllerUnreachableRetry,
    Core,
    CoreInstallRunHint,
    CoreInstallSkipped,
    CoreVersion,
    Current,
    CurrentGroupNode,
    CustomPort,
    CustomPortDetail,
    CustomPortSummary,
    DailyActions,
    Dashboard,
    Details,
    Disable,
    DisableShellProxy,
    DisableShellProxyQuestion,
    Downloading,
    EditStatus,
    ElapsedLabel,
    Enable,
    EnableShellProxy,
    EnableShellProxyQuestion,
    Failed,
    FailedParseActiveProfile,
    FailedReadActiveProfile,
    FailedRunStarail,
    Fast,
    FetchingLatestMihomoRelease,
    Field,
    FormSubmitHint,
    Group,
    GroupNoNodesTest,
    GroupUnit,
    Home,
    Install,
    InstallMihomoCore,
    InstalledMihomoCoreAt,
    InstalledMihomoCoreLabel,
    Language,
    LanguageDetail,
    LanguageSaved,
    LanguageSummary,
    Later,
    LatestMihomoReleaseLabel,
    LoadedProxyGroups,
    Local,
    LocalProfileUpdateUnsupported,
    LogFileEmpty,
    LogFileLabel,
    Logs,
    LogsDetail,
    LogsLoaded,
    LogsSummary,
    ManagedCore,
    ManagedCoreMissingInstalling,
    MessageKeys,
    MihomoController,
    MihomoCoreMissingInstallQuestion,
    MihomoCoreUpToDate,
    MihomoKilledAfterTerm,
    MihomoNotRunning,
    MihomoStartedWithPid,
    MihomoStopped,
    Missing,
    MixedPort,
    MixedPortLabel,
    MixedPortSaved,
    Mode,
    Move,
    Name,
    NextSubmit,
    No,
    NoActiveProfileSelected,
    NoChange,
    NoNodeSelected,
    NoProfileSelected,
    NoProfilesYet,
    NoProxyGroupSelected,
    NoProxyGroupsFound,
    NodeUnit,
    Nodes,
    NodesLoadedYamlOrder,
    NoneValue,
    OkStatus,
    Open,
    OpenGroup,
    OpenStatus,
    PortInvalid,
    PortPrompt,
    PressCtrlCCancelCommand,
    PressEnterViewGroupNodeList,
    Process,
    ProfileEmptyHint,
    ProfileName,
    ProfileNameRequired,
    ProfileStorageHint,
    Profiles,
    ProfilesDetail,
    ProfilesLoaded,
    ProxyDataLoaded,
    ProxyGroups,
    ProxyGroupsAndNodes,
    ProxyGroupsDetail,
    Quit,
    Reachable,
    Ready,
    RecentOutput,
    Refresh,
    Refreshed,
    Remove,
    RemoveProfile,
    RemoveProfileQuestion,
    Result,
    Running,
    Runtime,
    RuntimeConfig,
    RuntimeConfigLabel,
    Scope,
    Scroll,
    Select,
    SelectActiveProfileWithProxyGroups,
    SelectNode,
    SelectProxyNode,
    Selected,
    Selection,
    Settings,
    SettingsDetail,
    SettingsLoaded,
    SettingsNoItems,
    Source,
    StartMihomo,
    StartStopDetail,
    StartStopMihomo,
    Status,
    StatusLabel,
    StillRunning,
    StopMihomo,
    Stopped,
    Subscription,
    SubscriptionRunHintFetch,
    SubscriptionRunHintTimeout,
    SubscriptionUrl,
    SubscriptionUrlRequired,
    SwitchMode,
    SwitchModeDetail,
    SwitchModeSummary,
    TerminalUi,
    TestGroup,
    Testing,
    ToggleShellProxy,
    ToggleShellProxyDetail,
    Type,
    UnableReadLogs,
    Unavailable,
    Unknown,
    Unreachable,
    Update,
    UpdateAll,
    UpdateSubscription,
    UpdateSubscriptions,
    UpdatingMihomoCore,
    Use,
    UseProfile,
    Yes,
}

/// The English text of a message.
pub open spec fn english_text(message: Message) -> Seq<char> {
    match message {
        Message::Active => "active"@,
        Message::ActiveProfile => "Active profile"@,
        Message::AddLocalProfile => "Add local profile"@,
        Message::AddSubscription => "Add subscription"@,
        Message::Apply => "Apply"@,
        Message::Back => "Back"@,
        Message::BlankForAutomatic => "blank for automatic"@,
        Message::Cancel => "Cancel"@,
        Message::CheckAction => "Check"@,
        Message::CheckUpdateCore => "Check/update core"@,
        Message::CheckUpdateCoreDetail => "Fetch the latest mihomo release and replace the managed core when a newer version is available."@,
        Message::CheckUpdateCoreQuestion => "Check the latest mihomo release and update the managed core if needed?"@,
        Message::CheckUpdateCoreSummary => "Compare with the latest release"@,
        Message::Choose => "Choose"@,
        Message::ChooseLanguage => "Choose the interface language."@,
        Message::Code => "Code"@,
        Message::CommandCanceledByUser => "Command canceled by user."@,
        Message::CommandCompleted => "Command completed."@,
        Message::CommandCompletedNoOutput => "Command completed with no output."@,
        Message::CommandFailed => "Command failed."@,
        Message::CommandFailedLine => "Command failed:"@,
        Message::CommandLabel => "Command:"@,
        Message::CommandRunning => "Command running..."@,
        Message::ConfigPath => "Config path"@,
        Message::ConfigPathRequired => "Config path is required."@,
        Message::ConfirmAction => "Confirm"@,
        Message::ConfirmStatus => "confirm"@,
        Message::Controller => "Controller"@,
        Message::ControllerModeLoaded => "Loaded the current mode from the controller."@,
        Message::ControllerState => "Controller state"@,
        Message::ControllerUnreachableRetry => "Controller is unreachable; start mihomo and try again."@,
        Message::Core => "Core"@,
        Message::CoreInstallRunHint => "Downloading the mihomo core may take a while on slow networks."@,
        Message::CoreInstallSkipped => "Core install skipped. Use Settings to install it later."@,
        Message::CoreVersion => "Core version"@,
        Message::Current => "Current"@,
        Message::CurrentGroupNode => "Current group/node"@,
        Message::CustomPort => "Custom port"@,
        Message::CustomPortDetail => "Set the mixed-port used for local HTTP/SOCKS traffic when a profile does not define one."@,
        Message::CustomPortSummary => "Local mixed-port"@,
        Message::DailyActions => "Daily actions"@,
        Message::Dashboard => "Dashboard"@,
        Message::Details => "Details"@,
        Message::Disable => "Disable"@,
        Message::DisableShellProxy => "Disable shell proxy"@,
        Message::DisableShellProxyQuestion => "Remove the Starail proxy block from ~/.bashrc?"@,
        Message::Downloading => "Downloading"@,
        Message::EditStatus => "edit"@,
        Message::ElapsedLabel => "Elapsed:"@,
        Message::Enable => "Enable"@,
        Message::EnableShellProxy => "Enable shell proxy"@,
        Message::EnableShellProxyQuestion => "Add the Starail proxy block to ~/.bashrc for new shells?"@,
        Message::Failed => "failed"@,
        Message::FailedParseActiveProfile => "Failed to parse active profile"@,
        Message::FailedReadActiveProfile => "Failed to read active profile"@,
        Message::FailedRunStarail => "Failed to run starail"@,
        Message::Fast => "Fast"@,
        Message::FetchingLatestMihomoRelease => "Fetching the latest mihomo release..."@,
        Message::Field => "Field"@,
        Message::FormSubmitHint => "Fill in the fields and press Enter to submit."@,
        Message::Group => "Group"@,
        Message::GroupNoNodesTest => "This group has no nodes to test."@,
        Message::GroupUnit => "groups"@,
        Message::Home => "Home"@,
        Message::Install => "Install"@,
        Message::InstallMihomoCore => "Install mihomo core"@,
        Message::InstalledMihomoCoreAt => "Installed mihomo core at"@,
        Message::InstalledMihomoCoreLabel => "Installed mihomo core:"@,
        Message::Language => "Language"@,
        Message::LanguageDetail => "The interface language of the terminal UI and command messages."@,
        Message::LanguageSaved => "Language saved."@,
        Message::LanguageSummary => "Interface language"@,
        Message::Later => "Later"@,
        Message::LatestMihomoReleaseLabel => "Latest mihomo release:"@,
        Message::LoadedProxyGroups => "Loaded proxy groups from profile"@,
        Message::Local => "local"@,
        Message::LocalProfileUpdateUnsupported => "Local profiles cannot be updated; only subscriptions can."@,
        Message::LogFileEmpty => "The log file is empty."@,
        Message::LogFileLabel => "Log file:"@,
        Message::Logs => "Logs"@,
        Message::LogsDetail => "Show the most recent lines of the mihomo log."@,
        Message::LogsLoaded => "Logs loaded."@,
        Message::LogsSummary => "Recent mihomo output"@,
        Message::ManagedCore => "Managed core"@,
        Message::ManagedCoreMissingInstalling => "Managed mihomo core is missing; installing"@,
        Message::MessageKeys => "Message / keys"@,
        Message::MihomoController => "mihomo controller"@,
        Message::MihomoCoreMissingInstallQuestion => "The mihomo core is missing. Download and install it to"@,
        Message::MihomoCoreUpToDate => "The mihomo core is up to date."@,
        Message::MihomoKilledAfterTerm => "mihomo did not stop after SIGTERM and was killed."@,
        Message::MihomoNotRunning => "mihomo is not running."@,
        Message::MihomoStartedWithPid => "mihomo started with pid"@,
        Message::MihomoStopped => "mihomo stopped."@,
        Message::Missing => "missing"@,
        Message::MixedPort => "Mixed port"@,
        Message::MixedPortLabel => "mixed-port"@,
        Message::MixedPortSaved => "Mixed port saved"@,
        Message::Mode => "mode"@,
        Message::Move => "Move"@,
        Message::Name => "Name"@,
        Message::NextSubmit => "Next/submit"@,
        Message::No => "no"@,
        Message::NoActiveProfileSelected => "No active profile selected."@,
        Message::NoChange => "No change."@,
        Message::NoNodeSelected => "No node selected."@,
        Message::NoProfileSelected => "No profile selected."@,
        Message::NoProfilesYet => "No profiles yet."@,
        Message::NoProxyGroupSelected => "No proxy group selected."@,
        Message::NoProxyGroupsFound => "No proxy groups found."@,
        Message::NodeUnit => "nodes"@,
        Message::Nodes => "Nodes"@,
        Message::NodesLoadedYamlOrder => "Nodes are listed in profile order."@,
        Message::NoneValue => "none"@,
        Message::OkStatus => "ok"@,
        Message::Open => "Open"@,
        Message::OpenGroup => "Open group"@,
        Message::OpenStatus => "open"@,
        Message::PortInvalid => "Port must be a number from 1 to 65535."@,
        Message::PortPrompt => "Enter the mixed-port and press Enter to save."@,
        Message::PressCtrlCCancelCommand => "Press Ctrl-C to cancel the command."@,
        Message::PressEnterViewGroupNodeList => "Press Enter to view the nodes of this group."@,
        Message::Process => "Process"@,
        Message::ProfileEmptyHint => "Press s to add a subscription or a to add a local profile."@,
        Message::ProfileName => "Profile name"@,
        Message::ProfileNameRequired => "Profile name is required."@,
        Message::ProfileStorageHint => "Profiles are stored under ~/.starail/profiles."@,
        Message::Profiles => "Profiles"@,
        Message::ProfilesDetail => "Use, add, update, or remove local and subscription profiles."@,
        Message::ProfilesLoaded => "Profiles loaded."@,
        Message::ProxyDataLoaded => "Proxy data loaded."@,
        Message::ProxyGroups => "Proxy groups"@,
        Message::ProxyGroupsAndNodes => "Proxy groups and nodes"@,
        Message::ProxyGroupsDetail => "Browse proxy groups, test nodes, and switch the selected node."@,
        Message::Quit => "Quit"@,
        Message::Reachable => "reachable"@,
        Message::Ready => "Ready."@,
        Message::RecentOutput => "Recent output:"@,
        Message::Refresh => "Refresh"@,
        Message::Refreshed => "Refreshed."@,
        Message::Remove => "Remove"@,
        Message::RemoveProfile => "Remove profile"@,
        Message::RemoveProfileQuestion => "Remove profile"@,
        Message::Result => "Result"@,
        Message::Running => "running"@,
        Message::Runtime => "Runtime"@,
        Message::RuntimeConfig => "Runtime config"@,
        Message::RuntimeConfigLabel => "Runtime config:"@,
        Message::Scope => "Scope"@,
        Message::Scroll => "Scroll"@,
        Message::Select => "Select"@,
        Message::SelectActiveProfileWithProxyGroups => "Select an active profile that defines proxy groups."@,
        Message::SelectNode => "Select node"@,
        Message::SelectProxyNode => "Select proxy node"@,
        Message::Selected => "Selected"@,
        Message::Selection => "Selection"@,
        Message::Settings => "Settings"@,
        Message::SettingsDetail => "Language, custom port, mode, logs, and core updates."@,
        Message::SettingsLoaded => "Settings loaded."@,
        Message::SettingsNoItems => "No settings available."@,
        Message::Source => "Source"@,
        Message::StartMihomo => "Start mihomo"@,
        Message::StartStopDetail => "Start mihomo with the active profile, or stop it when it is running."@,
        Message::StartStopMihomo => "Start/stop mihomo"@,
        Message::Status => "Status"@,
        Message::StatusLabel => "Status: "@,
        Message::StillRunning => "still running"@,
        Message::StopMihomo => "Stop mihomo"@,
        Message::Stopped => "stopped"@,
        Message::Subscription => "subscription"@,
        Message::SubscriptionRunHintFetch => "Fetching the subscription and validating it with mihomo."@,
        Message::SubscriptionRunHintTimeout => "Validation may download GeoIP data and take up to a minute."@,
        Message::SubscriptionUrl => "Subscription URL"@,
        Message::SubscriptionUrlRequired => "Subscription URL is required."@,
        Message::SwitchMode => "Switch mode"@,
        Message::SwitchModeDetail => "Switch mihomo between rule, global, and direct mode."@,
        Message::SwitchModeSummary => "rule / global / direct"@,
        Message::TerminalUi => "Terminal UI"@,
        Message::TestGroup => "Test group"@,
        Message::Testing => "testing"@,
        Message::ToggleShellProxy => "Toggle shell proxy"@,
        Message::ToggleShellProxyDetail => "Add or remove the Starail proxy variables in ~/.bashrc for new shells."@,
        Message::Type => "Type"@,
        Message::UnableReadLogs => "Unable to read logs."@,
        Message::Unavailable => "unavailable"@,
        Message::Unknown => "unknown"@,
        Message::Unreachable => "unreachable"@,
        Message::Update => "Update"@,
        Message::UpdateAll => "Update all"@,
        Message::UpdateSubscription => "Update subscription"@,
        Message::UpdateSubscriptions => "Update subscriptions"@,
        Message::UpdatingMihomoCore => "Updating mihomo core"@,
        Message::Use => "Use"@,
        Message::UseProfile => "Use profile"@,
        Message::Yes => "yes"@,
    }
}

/// The Simplified Chinese text of a message.
pub open spec fn chinese_text(message: Message) -> Seq<char> {
    match message {
        Message::Active => "活动"@,
        Message::ActiveProfile => "当前配置"@,
        Message::AddLocalProfile => "添加本地配置"@,
        Message::AddSubscription => "添加订阅"@,
        Message::Apply => "应用"@,
        Message::Back => "返回"@,
        Message::BlankForAutomatic => "留空自动生成"@,
        Message::Cancel => "取消"@,
        Message::CheckAction => "检查"@,
        Message::CheckUpdateCore => "检查/更新核心"@,
        Message::CheckUpdateCoreDetail => "获取最新的 mihomo 版本，有新版本时替换托管核心。"@,
        Message::CheckUpdateCoreQuestion => "检查最新的 mihomo 版本并在需要时更新托管核心？"@,
        Message::CheckUpdateCoreSummary => "与最新版本比较"@,
        Message::Choose => "选择"@,
        Message::ChooseLanguage => "选择界面语言。"@,
        Message::Code => "代码"@,
        Message::CommandCanceledByUser => "命令已被用户取消。"@,
        Message::CommandCompleted => "命令已完成。"@,
        Message::CommandCompletedNoOutput => "命令已完成，没有输出。"@,
        Message::CommandFailed => "命令失败。"@,
        Message::CommandFailedLine => "命令失败："@,
        Message::CommandLabel => "命令："@,
        Message::CommandRunning => "命令运行中..."@,
        Message::ConfigPath => "配置路径"@,
        Message::ConfigPathRequired => "需要填写配置路径。"@,
        Message::ConfirmAction => "确认"@,
        Message::ConfirmStatus => "确认"@,
        Message::Controller => "控制器"@,
        Message::ControllerModeLoaded => "已从控制器读取当前模式。"@,
        Message::ControllerState => "控制器状态"@,
        Message::ControllerUnreachableRetry => "控制器不可连接；请启动 mihomo 后重试。"@,
        Message::Core => "核心"@,
        Message::CoreInstallRunHint => "网络较慢时下载 mihomo 核心可能需要一些时间。"@,
        Message::CoreInstallSkipped => "已跳过核心安装，可稍后在设置中安装。"@,
        Message::CoreVersion => "核心版本"@,
        Message::Current => "当前"@,
        Message::CurrentGroupNode => "当前分组/节点"@,
        Message::CustomPort => "自定义端口"@,
        Message::CustomPortDetail => "设置本地 HTTP/SOCKS 流量使用的 mixed-port，配置未指定时生效。"@,
        Message::CustomPortSummary => "本地 mixed-port"@,
        Message::DailyActions => "日常操作"@,
        Message::Dashboard => "概览"@,
        Message::Details => "详情"@,
        Message::Disable => "关闭"@,
        Message::DisableShellProxy => "关闭终端代理"@,
        Message::DisableShellProxyQuestion => "从 ~/.bashrc 移除 Starail 代理块？"@,
        Message::Downloading => "正在下载"@,
        Message::EditStatus => "编辑"@,
        Message::ElapsedLabel => "已用时间："@,
        Message::Enable => "开启"@,
        Message::EnableShellProxy => "开启终端代理"@,
        Message::EnableShellProxyQuestion => "为新终端在 ~/.bashrc 中添加 Starail 代理块？"@,
        Message::Failed => "失败"@,
        Message::FailedParseActiveProfile => "无法解析当前配置"@,
        Message::FailedReadActiveProfile => "无法读取当前配置"@,
        Message::FailedRunStarail => "无法运行 starail"@,
        Message::Fast => "快速"@,
        Message::FetchingLatestMihomoRelease => "正在获取最新的 mihomo 版本..."@,
        Message::Field => "字段"@,
        Message::FormSubmitHint => "填写字段后按 Enter 提交。"@,
        Message::Group => "分组"@,
        Message::GroupNoNodesTest => "该分组没有可测试的节点。"@,
        Message::GroupUnit => "组"@,
        Message::Home => "主目录"@,
        Message::Install => "安装"@,
        Message::InstallMihomoCore => "安装 mihomo 核心"@,
        Message::InstalledMihomoCoreAt => "mihomo 核心已安装到"@,
        Message::InstalledMihomoCoreLabel => "已安装的 mihomo 核心："@,
        Message::Language => "语言"@,
        Message::LanguageDetail => "终端界面和命令消息使用的语言。"@,
        Message::LanguageSaved => "语言已保存。"@,
        Message::LanguageSummary => "界面语言"@,
        Message::Later => "稍后"@,
        Message::LatestMihomoReleaseLabel => "最新的 mihomo 版本："@,
        Message::LoadedProxyGroups => "已从配置读取代理分组"@,
        Message::Local => "本地"@,
        Message::LocalProfileUpdateUnsupported => "本地配置无法更新，只有订阅可以更新。"@,
        Message::LogFileEmpty => "日志文件为空。"@,
        Message::LogFileLabel => "日志文件："@,
        Message::Logs => "日志"@,
        Message::LogsDetail => "显示 mihomo 日志的最近几行。"@,
        Message::LogsLoaded => "日志已读取。"@,
        Message::LogsSummary => "最近的 mihomo 输出"@,
        Message::ManagedCore => "托管核心"@,
        Message::ManagedCoreMissingInstalling => "托管的 mihomo 核心缺失；正在安装"@,
        Message::MessageKeys => "消息 / 按键"@,
        Message::MihomoController => "mihomo 控制器"@,
        Message::MihomoCoreMissingInstallQuestion => "mihomo 核心缺失。是否下载并安装到"@,
        Message::MihomoCoreUpToDate => "mihomo 核心已是最新版本。"@,
        Message::MihomoKilledAfterTerm => "mihomo 在 SIGTERM 后未停止，已强制结束。"@,
        Message::MihomoNotRunning => "mihomo 未运行。"@,
        Message::MihomoStartedWithPid => "mihomo 已启动，pid"@,
        Message::MihomoStopped => "mihomo 已停止。"@,
        Message::Missing => "缺失"@,
        Message::MixedPort => "混合端口"@,
        Message::MixedPortLabel => "mixed-port"@,
        Message::MixedPortSaved => "混合端口已保存"@,
        Message::Mode => "模式"@,
        Message::Move => "移动"@,
        Message::Name => "名称"@,
        Message::NextSubmit => "下一项/提交"@,
        Message::No => "否"@,
        Message::NoActiveProfileSelected => "尚未选择当前配置。"@,
        Message::NoChange => "未做更改。"@,
        Message::NoNodeSelected => "未选择节点。"@,
        Message::NoProfileSelected => "未选择配置。"@,
        Message::NoProfilesYet => "还没有配置。"@,
        Message::NoProxyGroupSelected => "未选择代理分组。"@,
        Message::NoProxyGroupsFound => "未找到代理分组。"@,
        Message::NodeUnit => "个节点"@,
        Message::Nodes => "节点"@,
        Message::NodesLoadedYamlOrder => "节点按配置中的顺序列出。"@,
        Message::NoneValue => "无"@,
        Message::OkStatus => "成功"@,
        Message::Open => "打开"@,
        Message::OpenGroup => "打开分组"@,
        Message::OpenStatus => "打开"@,
        Message::PortInvalid => "端口必须是 1 到 65535 之间的数字。"@,
        Message::PortPrompt => "输入 mixed-port 后按 Enter 保存。"@,
        Message::PressCtrlCCancelCommand => "按 Ctrl-C 取消命令。"@,
        Message::PressEnterViewGroupNodeList => "按 Enter 查看该分组的节点。"@,
        Message::Process => "进程"@,
        Message::ProfileEmptyHint => "按 s 添加订阅，或按 a 添加本地配置。"@,
        Message::ProfileName => "配置名称"@,
        Message::ProfileNameRequired => "需要填写配置名称。"@,
        Message::ProfileStorageHint => "配置保存在 ~/.starail/profiles 下。"@,
        Message::Profiles => "配置"@,
        Message::ProfilesDetail => "使用、添加、更新或删除本地与订阅配置。"@,
        Message::ProfilesLoaded => "配置已读取。"@,
        Message::ProxyDataLoaded => "代理数据已读取。"@,
        Message::ProxyGroups => "代理分组"@,
        Message::ProxyGroupsAndNodes => "代理分组与节点"@,
        Message::ProxyGroupsDetail => "浏览代理分组、测试节点并切换所选节点。"@,
        Message::Quit => "退出"@,
        Message::Reachable => "可连接"@,
        Message::Ready => "就绪。"@,
        Message::RecentOutput => "最近输出："@,
        Message::Refresh => "刷新"@,
        Message::Refreshed => "已刷新。"@,
        Message::Remove => "删除"@,
        Message::RemoveProfile => "删除配置"@,
        Message::RemoveProfileQuestion => "删除配置"@,
        Message::Result => "结果"@,
        Message::Running => "运行中"@,
        Message::Runtime => "运行时"@,
        Message::RuntimeConfig => "运行时配置"@,
        Message::RuntimeConfigLabel => "运行时配置："@,
        Message::Scope => "范围"@,
        Message::Scroll => "滚动"@,
        Message::Select => "选择"@,
        Message::SelectActiveProfileWithProxyGroups => "请选择定义了代理分组的当前配置。"@,
        Message::SelectNode => "选择节点"@,
        Message::SelectProxyNode => "选择代理节点"@,
        Message::Selected => "已选"@,
        Message::Selection => "选择"@,
        Message::Settings => "设置"@,
        Message::SettingsDetail => "语言、自定义端口、模式、日志和核心更新。"@,
        Message::SettingsLoaded => "设置已读取。"@,
        Message::SettingsNoItems => "没有可用的设置。"@,
        Message::Source => "来源"@,
        Message::StartMihomo => "启动 mihomo"@,
        Message::StartStopDetail => "使用当前配置启动 mihomo，运行中时则停止。"@,
        Message::StartStopMihomo => "启动/停止 mihomo"@,
        Message::Status => "状态"@,
        Message::StatusLabel => "状态："@,
        Message::StillRunning => "仍在运行"@,
        Message::StopMihomo => "停止 mihomo"@,
        Message::Stopped => "已停止"@,
        Message::Subscription => "订阅"@,
        Message::SubscriptionRunHintFetch => "正在获取订阅并使用 mihomo 校验。"@,
        Message::SubscriptionRunHintTimeout => "校验可能需要下载 GeoIP 数据，最长约一分钟。"@,
        Message::SubscriptionUrl => "订阅地址"@,
        Message::SubscriptionUrlRequired => "需要填写订阅地址。"@,
        Message::SwitchMode => "切换模式"@,
        Message::SwitchModeDetail => "在规则、全局和直连模式之间切换 mihomo。"@,
        Message::SwitchModeSummary => "规则 / 全局 / 直连"@,
        Message::TerminalUi => "终端界面"@,
        Message::TestGroup => "测试分组"@,
        Message::Testing => "测试中"@,
        Message::ToggleShellProxy => "切换终端代理"@,
        Message::ToggleShellProxyDetail => "为新终端在 ~/.bashrc 中添加或移除 Starail 代理变量。"@,
        Message::Type => "类型"@,
        Message::UnableReadLogs => "无法读取日志。"@,
        Message::Unavailable => "不可用"@,
        Message::Unknown => "未知"@,
        Message::Unreachable => "不可连接"@,
        Message::Update => "更新"@,
        Message::UpdateAll => "全部更新"@,
        Message::UpdateSubscription => "更新订阅"@,
        Message::UpdateSubscriptions => "更新订阅"@,
        Message::UpdatingMihomoCore => "正在更新 mihomo 核心"@,
        Message::Use => "使用"@,
        Message::UseProfile => "使用配置"@,
        Message::Yes => "是"@,
    }
}

/// The text of a message in a language.
pub open spec fn message_text(language: Language, message: Message) -> Seq<char> {
    match language {
        Language::English => english_text(message),
        Language::SimplifiedChinese => chinese_text(message),
    }
}

fn english(message: Message) -> (r: &'static str)
    ensures
        r@ == english_text(message),
{
    match message {
        Message::Active => "active",
        Message::ActiveProfile => "Active profile",
        Message::AddLocalProfile => "Add local profile",
        Message::AddSubscription => "Add subscription",
        Message::Apply => "Apply",
        Message::Back => "Back",
        Message::BlankForAutomatic => "blank for automatic",
        Message::Cancel => "Cancel",
        Message::CheckAction => "Check",
        Message::CheckUpdateCore => "Check/update core",
        Message::CheckUpdateCoreDetail => "Fetch the latest mihomo release and replace the managed core when a newer version is available.",
        Message::CheckUpdateCoreQuestion => "Check the latest mihomo release and update the managed core if needed?",
        Message::CheckUpdateCoreSummary => "Compare with the latest release",
        Message::Choose => "Choose",
        Message::ChooseLanguage => "Choose the interface language.",
        Message::Code => "Code",
        Message::CommandCanceledByUser => "Command canceled by user.",
        Message::CommandCompleted => "Command completed.",
        Message::CommandCompletedNoOutput => "Command completed with no output.",
        Message::CommandFailed => "Command failed.",
        Message::CommandFailedLine => "Command failed:",
        Message::CommandLabel => "Command:",
        Message::CommandRunning => "Command running...",
        Message::ConfigPath => "Config path",
        Message::ConfigPathRequired => "Config path is required.",
        Message::ConfirmAction => "Confirm",
        Message::ConfirmStatus => "confirm",
        Message::Controller => "Controller",
        Message::ControllerModeLoaded => "Loaded the current mode from the controller.",
        Message::ControllerState => "Controller state",
        Message::ControllerUnreachableRetry => "Controller is unreachable; start mihomo and try again.",
        Message::Core => "Core",
        Message::CoreInstallRunHint => "Downloading the mihomo core may take a while on slow networks.",
        Message::CoreInstallSkipped => "Core install skipped. Use Settings to install it later.",
        Message::CoreVersion => "Core version",
        Message::Current => "Current",
        Message::CurrentGroupNode => "Current group/node",
        Message::CustomPort => "Custom port",
        Message::CustomPortDetail => "Set the mixed-port used for local HTTP/SOCKS traffic when a profile does not define one.",
        Message::CustomPortSummary => "Local mixed-port",
        Message::DailyActions => "Daily actions",
        Message::Dashboard => "Dashboard",
        Message::Details => "Details",
        Message::Disable => "Disable",
        Message::DisableShellProxy => "Disable shell proxy",
        Message::DisableShellProxyQuestion => "Remove the Starail proxy block from ~/.bashrc?",
        Message::Downloading => "Downloading",
        Message::EditStatus => "edit",
        Message::ElapsedLabel => "Elapsed:",
        Message::Enable => "Enable",
        Message::EnableShellProxy => "Enable shell proxy",
        Message::EnableShellProxyQuestion => "Add the Starail proxy block to ~/.bashrc for new shells?",
        Message::Failed => "failed",
        Message::FailedParseActiveProfile => "Failed to parse active profile",
        Message::FailedReadActiveProfile => "Failed to read active profile",
        Message::FailedRunStarail => "Failed to run starail",
        Message::Fast => "Fast",
        Message::FetchingLatestMihomoRelease => "Fetching the latest mihomo release...",
        Message::Field => "Field",
        Message::FormSubmitHint => "Fill in the fields and press Enter to submit.",
        Message::Group => "Group",
        Message::GroupNoNodesTest => "This group has no nodes to test.",
        Message::GroupUnit => "groups",
        Message::Home => "Home",
        Message::Install => "Install",
        Message::InstallMihomoCore => "Install mihomo core",
        Message::InstalledMihomoCoreAt => "Installed mihomo core at",
        Message::InstalledMihomoCoreLabel => "Installed mihomo core:",
        Message::Language => "Language",
        Message::LanguageDetail => "The interface language of the terminal UI and command messages.",
        Message::LanguageSaved => "Language saved.",
        Message::LanguageSummary => "Interface language",
        Message::Later => "Later",
        Message::LatestMihomoReleaseLabel => "Latest mihomo release:",
        Message::LoadedProxyGroups => "Loaded proxy groups from profile",
        Message::Local => "local",
        Message::LocalProfileUpdateUnsupported => "Local profiles cannot be updated; only subscriptions can.",
        Message::LogFileEmpty => "The log file is empty.",
        Message::LogFileLabel => "Log file:",
        Message::Logs => "Logs",
        Message::LogsDetail => "Show the most recent lines of the mihomo log.",
        Message::LogsLoaded => "Logs loaded.",
        Message::LogsSummary => "Recent mihomo output",
        Message::ManagedCore => "Managed core",
        Message::ManagedCoreMissingInstalling => "Managed mihomo core is missing; installing",
        Message::MessageKeys => "Message / keys",
        Message::MihomoController => "mihomo controller",
        Message::MihomoCoreMissingInstallQuestion => "The mihomo core is missing. Download and install it to",
        Message::MihomoCoreUpToDate => "The mihomo core is up to date.",
        Message::MihomoKilledAfterTerm => "mihomo did not stop after SIGTERM and was killed.",
        Message::MihomoNotRunning => "mihomo is not running.",
        Message::MihomoStartedWithPid => "mihomo started with pid",
        Message::MihomoStopped => "mihomo stopped.",
        Message::Missing => "missing",
        Message::MixedPort => "Mixed port",
        Message::MixedPortLabel => "mixed-port",
        Message::MixedPortSaved => "Mixed port saved",
        Message::Mode => "mode",
        Message::Move => "Move",
        Message::Name => "Name",
        Message::NextSubmit => "Next/submit",
        Message::No => "no",
        Message::NoActiveProfileSelected => "No active profile selected.",
        Message::NoChange => "No change.",
        Message::NoNodeSelected => "No node selected.",
        Message::NoProfileSelected => "No profile selected.",
        Message::NoProfilesYet => "No profiles yet.",
        Message::NoProxyGroupSelected => "No proxy group selected.",
        Message::NoProxyGroupsFound => "No proxy groups found.",
        Message::NodeUnit => "nodes",
        Message::Nodes => "Nodes",
        Message::NodesLoadedYamlOrder => "Nodes are listed in profile order.",
        Message::NoneValue => "none",
        Message::OkStatus => "ok",
        Message::Open => "Open",
        Message::OpenGroup => "Open group",
        Message::OpenStatus => "open",
        Message::PortInvalid => "Port must be a number from 1 to 65535.",
        Message::PortPrompt => "Enter the mixed-port and press Enter to save.",
        Message::PressCtrlCCancelCommand => "Press Ctrl-C to cancel the command.",
        Message::PressEnterViewGroupNodeList => "Press Enter to view the nodes of this group.",
        Message::Process => "Process",
        Message::ProfileEmptyHint => "Press s to add a subscription or a to add a local profile.",
        Message::ProfileName => "Profile name",
        Message::ProfileNameRequired => "Profile name is required.",
        Message::ProfileStorageHint => "Profiles are stored under ~/.starail/profiles.",
        Message::Profiles => "Profiles",
        Message::ProfilesDetail => "Use, add, update, or remove local and subscription profiles.",
        Message::ProfilesLoaded => "Profiles loaded.",
        Message::ProxyDataLoaded => "Proxy data loaded.",
        Message::ProxyGroups => "Proxy groups",
        Message::ProxyGroupsAndNodes => "Proxy groups and nodes",
        Message::ProxyGroupsDetail => "Browse proxy groups, test nodes, and switch the selected node.",
        Message::Quit => "Quit",
        Message::Reachable => "reachable",
        Message::Ready => "Ready.",
        Message::RecentOutput => "Recent output:",
        Message::Refresh => "Refresh",
        Message::Refreshed => "Refreshed.",
        Message::Remove => "Remove",
        Message::RemoveProfile => "Remove profile",
        Message::RemoveProfileQuestion => "Remove profile",
        Message::Result => "Result",
        Message::Running => "running",
        Message::Runtime => "Runtime",
        Message::RuntimeConfig => "Runtime config",
        Message::RuntimeConfigLabel => "Runtime config:",
        Message::Scope => "Scope",
        Message::Scroll => "Scroll",
        Message::Select => "Select",
        Message::SelectActiveProfileWithProxyGroups => "Select an active profile that defines proxy groups.",
        Message::SelectNode => "Select node",
        Message::SelectProxyNode => "Select proxy node",
        Message::Selected => "Selected",
        Message::Selection => "Selection",
        Message::Settings => "Settings",
        Message::SettingsDetail => "Language, custom port, mode, logs, and core updates.",
        Message::SettingsLoaded => "Settings loaded.",
        Message::SettingsNoItems => "No settings available.",
        Message::Source => "Source",
        Message::StartMihomo => "Start mihomo",
        Message::StartStopDetail => "Start mihomo with the active profile, or stop it when it is running.",
        Message::StartStopMihomo => "Start/stop mihomo",
        Message::Status => "Status",
        Message::StatusLabel => "Status: ",
        Message::StillRunning => "still running",
        Message::StopMihomo => "Stop mihomo",
        Message::Stopped => "stopped",
        Message::Subscription => "subscription",
        Message::SubscriptionRunHintFetch => "Fetching the subscription and validating it with mihomo.",
        Message::SubscriptionRunHintTimeout => "Validation may download GeoIP data and take up to a minute.",
        Message::SubscriptionUrl => "Subscription URL",
        Message::SubscriptionUrlRequired => "Subscription URL is required.",
        Message::SwitchMode => "Switch mode",
        Message::SwitchModeDetail => "Switch mihomo between rule, global, and direct mode.",
        Message::SwitchModeSummary => "rule / global / direct",
        Message::TerminalUi => "Terminal UI",
        Message::TestGroup => "Test group",
        Message::Testing => "testing",
        Message::ToggleShellProxy => "Toggle shell proxy",
        Message::ToggleShellProxyDetail => "Add or remove the Starail proxy variables in ~/.bashrc for new shells.",
        Message::Type => "Type",
        Message::UnableReadLogs => "Unable to read logs.",
        Message::Unavailable => "unavailable",
        Message::Unknown => "unknown",
        Message::Unreachable => "unreachable",
        Message::Update => "Update",
        Message::UpdateAll => "Update all",
        Message::UpdateSubscription => "Update subscription",
        Message::UpdateSubscriptions => "Update subscriptions",
        Message::UpdatingMihomoCore => "Updating mihomo core",
        Message::Use => "Use",
        Message::UseProfile => "Use profile",
        Message::Yes => "yes",
    }
}

fn chinese(message: Message) -> (r: &'static str)
    ensures
        r@ == chinese_text(message),
{
    match message {
        Message::Active => "活动",
        Message::ActiveProfile => "当前配置",
        Message::AddLocalProfile => "添加本地配置",
        Message::AddSubscription => "添加订阅",
        Message::Apply => "应用",
        Message::Back => "返回",
        Message::BlankForAutomatic => "留空自动生成",
        Message::Cancel => "取消",
        Message::CheckAction => "检查",
        Message::CheckUpdateCore => "检查/更新核心",
        Message::CheckUpdateCoreDetail => "获取最新的 mihomo 版本，有新版本时替换托管核心。",
        Message::CheckUpdateCoreQuestion => "检查最新的 mihomo 版本并在需要时更新托管核心？",
        Message::CheckUpdateCoreSummary => "与最新版本比较",
        Message::Choose => "选择",
        Message::ChooseLanguage => "选择界面语言。",
        Message::Code => "代码",
        Message::CommandCanceledByUser => "命令已被用户取消。",
        Message::CommandCompleted => "命令已完成。",
        Message::CommandCompletedNoOutput => "命令已完成，没有输出。",
        Message::CommandFailed => "命令失败。",
        Message::CommandFailedLine => "命令失败：",
        Message::CommandLabel => "命令：",
        Message::CommandRunning => "命令运行中...",
        Message::ConfigPath => "配置路径",
        Message::ConfigPathRequired => "需要填写配置路径。",
        Message::ConfirmAction => "确认",
        Message::ConfirmStatus => "确认",
        Message::Controller => "控制器",
        Message::ControllerModeLoaded => "已从控制器读取当前模式。",
        Message::ControllerState => "控制器状态",
        Message::ControllerUnreachableRetry => "控制器不可连接；请启动 mihomo 后重试。",
        Message::Core => "核心",
        Message::CoreInstallRunHint => "网络较慢时下载 mihomo 核心可能需要一些时间。",
        Message::CoreInstallSkipped => "已跳过核心安装，可稍后在设置中安装。",
        Message::CoreVersion => "核心版本",
        Message::Current => "当前",
        Message::CurrentGroupNode => "当前分组/节点",
        Message::CustomPort => "自定义端口",
        Message::CustomPortDetail => "设置本地 HTTP/SOCKS 流量使用的 mixed-port，配置未指定时生效。",
        Message::CustomPortSummary => "本地 mixed-port",
        Message::DailyActions => "日常操作",
        Message::Dashboard => "概览",
        Message::Details => "详情",
        Message::Disable => "关闭",
        Message::DisableShellProxy => "关闭终端代理",
        Message::DisableShellProxyQuestion => "从 ~/.bashrc 移除 Starail 代理块？",
        Message::Downloading => "正在下载",
        Message::EditStatus => "编辑",
        Message::ElapsedLabel => "已用时间：",
        Message::Enable => "开启",
        Message::EnableShellProxy => "开启终端代理",
        Message::EnableShellProxyQuestion => "为新终端在 ~/.bashrc 中添加 Starail 代理块？",
        Message::Failed => "失败",
        Message::FailedParseActiveProfile => "无法解析当前配置",
        Message::FailedReadActiveProfile => "无法读取当前配置",
        Message::FailedRunStarail => "无法运行 starail",
        Message::Fast => "快速",
        Message::FetchingLatestMihomoRelease => "正在获取最新的 mihomo 版本...",
        Message::Field => "字段",
        Message::FormSubmitHint => "填写字段后按 Enter 提交。",
        Message::Group => "分组",
        Message::GroupNoNodesTest => "该分组没有可测试的节点。",
        Message::GroupUnit => "组",
        Message::Home => "主目录",
        Message::Install => "安装",
        Message::InstallMihomoCore => "安装 mihomo 核心",
        Message::InstalledMihomoCoreAt => "mihomo 核心已安装到",
        Message::InstalledMihomoCoreLabel => "已安装的 mihomo 核心：",
        Message::Language => "语言",
        Message::LanguageDetail => "终端界面和命令消息使用的语言。",
        Message::LanguageSaved => "语言已保存。",
        Message::LanguageSummary => "界面语言",
        Message::Later => "稍后",
        Message::LatestMihomoReleaseLabel => "最新的 mihomo 版本：",
        Message::LoadedProxyGroups => "已从配置读取代理分组",
        Message::Local => "本地",
        Message::LocalProfileUpdateUnsupported => "本地配置无法更新，只有订阅可以更新。",
        Message::LogFileEmpty => "日志文件为空。",
        Message::LogFileLabel => "日志文件：",
        Message::Logs => "日志",
        Message::LogsDetail => "显示 mihomo 日志的最近几行。",
        Message::LogsLoaded => "日志已读取。",
        Message::LogsSummary => "最近的 mihomo 输出",
        Message::ManagedCore => "托管核心",
        Message::ManagedCoreMissingInstalling => "托管的 mihomo 核心缺失；正在安装",
        Message::MessageKeys => "消息 / 按键",
        Message::MihomoController => "mihomo 控制器",
        Message::MihomoCoreMissingInstallQuestion => "mihomo 核心缺失。是否下载并安装到",
        Message::MihomoCoreUpToDate => "mihomo 核心已是最新版本。",
        Message::MihomoKilledAfterTerm => "mihomo 在 SIGTERM 后未停止，已强制结束。",
        Message::MihomoNotRunning => "mihomo 未运行。",
        Message::MihomoStartedWithPid => "mihomo 已启动，pid",
        Message::MihomoStopped => "mihomo 已停止。",
        Message::Missing => "缺失",
        Message::MixedPort => "混合端口",
        Message::MixedPortLabel => "mixed-port",
        Message::MixedPortSaved => "混合端口已保存",
        Message::Mode => "模式",
        Message::Move => "移动",
        Message::Name => "名称",
        Message::NextSubmit => "下一项/提交",
        Message::No => "否",
        Message::NoActiveProfileSelected => "尚未选择当前配置。",
        Message::NoChange => "未做更改。",
        Message::NoNodeSelected => "未选择节点。",
        Message::NoProfileSelected => "未选择配置。",
        Message::NoProfilesYet => "还没有配置。",
        Message::NoProxyGroupSelected => "未选择代理分组。",
        Message::NoProxyGroupsFound => "未找到代理分组。",
        Message::NodeUnit => "个节点",
        Message::Nodes => "节点",
        Message::NodesLoadedYamlOrder => "节点按配置中的顺序列出。",
        Message::NoneValue => "无",
        Message::OkStatus => "成功",
        Message::Open => "打开",
        Message::OpenGroup => "打开分组",
        Message::OpenStatus => "打开",
        Message::PortInvalid => "端口必须是 1 到 65535 之间的数字。",
        Message::PortPrompt => "输入 mixed-port 后按 Enter 保存。",
        Message::PressCtrlCCancelCommand => "按 Ctrl-C 取消命令。",
        Message::PressEnterViewGroupNodeList => "按 Enter 查看该分组的节点。",
        Message::Process => "进程",
        Message::ProfileEmptyHint => "按 s 添加订阅，或按 a 添加本地配置。",
        Message::ProfileName => "配置名称",
        Message::ProfileNameRequired => "需要填写配置名称。",
        Message::ProfileStorageHint => "配置保存在 ~/.starail/profiles 下。",
        Message::Profiles => "配置",
        Message::ProfilesDetail => "使用、添加、更新或删除本地与订阅配置。",
        Message::ProfilesLoaded => "配置已读取。",
        Message::ProxyDataLoaded => "代理数据已读取。",
        Message::ProxyGroups => "代理分组",
        Message::ProxyGroupsAndNodes => "代理分组与节点",
        Message::ProxyGroupsDetail => "浏览代理分组、测试节点并切换所选节点。",
        Message::Quit => "退出",
        Message::Reachable => "可连接",
        Message::Ready => "就绪。",
        Message::RecentOutput => "最近输出：",
        Message::Refresh => "刷新",
        Message::Refreshed => "已刷新。",
        Message::Remove => "删除",
        Message::RemoveProfile => "删除配置",
        Message::RemoveProfileQuestion => "删除配置",
        Message::Result => "结果",
        Message::Running => "运行中",
        Message::Runtime => "运行时",
        Message::RuntimeConfig => "运行时配置",
        Message::RuntimeConfigLabel => "运行时配置：",
        Message::Scope => "范围",
        Message::Scroll => "滚动",
        Message::Select => "选择",
        Message::SelectActiveProfileWithProxyGroups => "请选择定义了代理分组的当前配置。",
        Message::SelectNode => "选择节点",
        Message::SelectProxyNode => "选择代理节点",
        Message::Selected => "已选",
        Message::Selection => "选择",
        Message::Settings => "设置",
        Message::SettingsDetail => "语言、自定义端口、模式、日志和核心更新。",
        Message::SettingsLoaded => "设置已读取。",
        Message::SettingsNoItems => "没有可用的设置。",
        Message::Source => "来源",
        Message::StartMihomo => "启动 mihomo",
        Message::StartStopDetail => "使用当前配置启动 mihomo，运行中时则停止。",
        Message::StartStopMihomo => "启动/停止 mihomo",
        Message::Status => "状态",
        Message::StatusLabel => "状态：",
        Message::StillRunning => "仍在运行",
        Message::StopMihomo => "停止 mihomo",
        Message::Stopped => "已停止",
        Message::Subscription => "订阅",
        Message::SubscriptionRunHintFetch => "正在获取订阅并使用 mihomo 校验。",
        Message::SubscriptionRunHintTimeout => "校验可能需要下载 GeoIP 数据，最长约一分钟。",
        Message::SubscriptionUrl => "订阅地址",
        Message::SubscriptionUrlRequired => "需要填写订阅地址。",
        Message::SwitchMode => "切换模式",
        Message::SwitchModeDetail => "在规则、全局和直连模式之间切换 mihomo。",
        Message::SwitchModeSummary => "规则 / 全局 / 直连",
        Message::TerminalUi => "终端界面",
        Message::TestGroup => "测试分组",
        Message::Testing => "测试中",
        Message::ToggleShellProxy => "切换终端代理",
        Message::ToggleShellProxyDetail => "为新终端在 ~/.bashrc 中添加或移除 Starail 代理变量。",
        Message::Type => "类型",
        Message::UnableReadLogs => "无法读取日志。",
        Message::Unavailable => "不可用",
        Message::Unknown => "未知",
        Message::Unreachable => "不可连接",
        Message::Update => "更新",
        Message::UpdateAll => "全部更新",
        Message::UpdateSubscription => "更新订阅",
        Message::UpdateSubscriptions => "更新订阅",
        Message::UpdatingMihomoCore => "正在更新 mihomo 核心",
        Message::Use => "使用",
        Message::UseProfile => "使用配置",
        Message::Yes => "是",
    }
}

/// The language that a language code names, after trimming and ASCII case
/// folding: `en` or `english`; `zh`, `zh-cn`, `zh_cn`, `zh-hans` or `chinese`.
pub open spec fn language_of_code(code: Seq<char>) -> Option<Language> {
    let c = ascii_lowercase(trim(code));
    if c == "en"@ || c == "english"@ {
        Some(Language::English)
    } else if c == "zh"@ || c == "zh-cn"@ || c == "zh_cn"@ || c == "zh-hans"@ || c == "chinese"@ {
        Some(Language::SimplifiedChinese)
    } else {
        None
    }
}

/// The code under which a language is stored.
pub open spec fn code_text(language: Language) -> Seq<char> {
    match language {
        Language::English => "en"@,
        Language::SimplifiedChinese => "zh-CN"@,
    }
}

/// The language that a locale setting (such as `LANG`) selects: Simplified
/// Chinese for a `zh` locale, English otherwise.
pub open spec fn language_of_locale(locale: Seq<char>) -> Language {
    if starts_with(ascii_lowercase(trim(locale)), "zh"@) {
        Language::SimplifiedChinese
    } else {
        Language::English
    }
}

impl Language {
    /// The text of `message` in this language.
    pub fn tr(self, message: Message) -> (r: &'static str)
        ensures
            r@ == message_text(self, message),
    {
        match self {
            Language::English => english(message),
            Language::SimplifiedChinese => chinese(message),
        }
    }

    /// Every language of the interface, in the order the language page
    /// lists them.
    pub fn all() -> (r: Vec<Language>)
        ensures
            r@ == seq![Language::English, Language::SimplifiedChinese],
    {
        let mut r = Vec::new();
        r.push(Language::English);
        r.push(Language::SimplifiedChinese);
        r
    }

    /// The code under which the language is stored in the config.
    pub fn code(self) -> (r: &'static str)
        ensures
            r@ == code_text(self),
    {
        match self {
            Language::English => "en",
            Language::SimplifiedChinese => "zh-CN",
        }
    }

    /// The language that a code names, if any.
    pub fn from_code(code: &str) -> (r: Option<Language>)
        ensures
            r == language_of_code(code@),
    {
        let t = trim_str(code);
        let c = to_ascii_lowercase(t.as_str());
        let c = c.as_str();
        if text_eq(c, "en") || text_eq(c, "english") {
            Some(Language::English)
        } else if text_eq(c, "zh") || text_eq(c, "zh-cn") || text_eq(c, "zh_cn") || text_eq(
            c,
            "zh-hans",
        ) || text_eq(c, "chinese") {
            Some(Language::SimplifiedChinese)
        } else {
            None
        }
    }

    /// The name of this language as shown in `shown_in`.
    pub fn display_name(self, shown_in: Language) -> (r: &'static str)
        ensures
            r@ == match (self, shown_in) {
                (Language::English, Language::English) => "English"@,
                (Language::SimplifiedChinese, Language::English) => "Simplified Chinese"@,
                (Language::English, Language::SimplifiedChinese) => "英语"@,
                (Language::SimplifiedChinese, Language::SimplifiedChinese) => "简体中文"@,
            },
    {
        match (self, shown_in) {
            (Language::English, Language::English) => "English",
            (Language::SimplifiedChinese, Language::English) => "Simplified Chinese",
            (Language::English, Language::SimplifiedChinese) => "英语",
            (Language::SimplifiedChinese, Language::SimplifiedChinese) => "简体中文",
        }
    }
}

/// The language that a locale setting selects.
pub fn locale_language(locale: &str) -> (r: Language)
    ensures
        r == language_of_locale(locale@),
{
    let t = trim_str(locale);
    let l = to_ascii_lowercase(t.as_str());
    if starts_with_str(l.as_str(), "zh") {
        Language::SimplifiedChinese
    } else {
        Language::English
    }
}

/// The language chosen from the environment: an explicit language code
/// (`STARAIL_LANG`) when it names a language, else the locale, else English.
pub fn detect_from(explicit: Option<&str>, locale: Option<&str>) -> (r: Language)
    ensures
        r == match explicit {
            Some(code) if language_of_code(code@) is Some => language_of_code(code@)->0,
            _ => match locale {
                Some(l) => language_of_locale(l@),
                None => Language::English,
            },
        },
{
    if let Some(code) = explicit {
        if let Some(language) = Language::from_code(code) {
            return language;
        }
    }
    match locale {
        Some(l) => locale_language(l),
        None => Language::English,
    }
}

/// The configured language when the stored code names one, else `fallback`.
pub fn configured(code: Option<&str>, fallback: Language) -> (r: Language)
    ensures
        r == match code {
            Some(c) if language_of_code(c@) is Some => language_of_code(c@)->0,
            _ => fallback,
        },
{
    match code {
        Some(c) => match Language::from_code(c) {
            Some(language) => language,
            None => fallback,
        },
        None => fallback,
    }
}

/// A stored language code always names the language it was stored for.
pub proof fn lemma_code_round_trip(language: Language)
    ensures
        language_of_code(code_text(language)) == Some(language),
{
    reveal_strlit("en");
    reveal_strlit("zh-CN");
    reveal_strlit("zh-cn");
    reveal_strlit("english");
    reveal_strlit("zh");
    reveal_strlit("zh_cn");
    reveal_strlit("zh-hans");
    reveal_strlit("chinese");
    let c = code_text(language);
    assert(trim(c) == c) by {
        crate::text::lemma_trim_start_skip(c, crate::text::CharClass::Whitespace, 0);
        crate::text::lemma_trim_end_take(c, crate::text::CharClass::Whitespace, c.len() as int);
        assert(c.skip(0) == c);
        assert(c.take(c.len() as int) == c);
    }
    match language {
        Language::English => {
            assert(ascii_lowercase(c) =~= "en"@);
        },
        Language::SimplifiedChinese => {
            assert(ascii_lowercase(c) =~= "zh-cn"@);
            assert(ascii_lowercase(c) != "en"@);
            assert(ascii_lowercase(c) != "english"@);
        },
    }
}

} // verus!
