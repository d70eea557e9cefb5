//! What the screen says: the texts and indices that the state determines.
//!
//! Nothing here draws. The functions give the plain values that a renderer
//! puts on the screen.

use vstd::prelude::*;
use vstd::string::StringExecFns;
use crate::app::{AppState, AppView};
use crate::kubectl::commands::{plural_word, resource_word, singular_word};
use crate::mode::{AppMode, ResourceKind};
use crate::text::same_text;

verus! {

/// Number of tabs in the header.
pub const TAB_COUNT: usize = 6;

/// The tab that stands for `mode` as such: the namespaces, the pods, the
/// services and the deployments have tabs of their own, every other list
/// and the menu of further resources share one, and the help has the
/// last. The detail views and the overlays have none.
pub open spec fn own_tab(mode: AppMode) -> Option<usize> {
    match mode {
        AppMode::NamespaceList => Some(0usize),
        AppMode::PodList => Some(1usize),
        AppMode::ServiceList => Some(2usize),
        AppMode::DeploymentList => Some(3usize),
        AppMode::Help => Some(5usize),
        AppMode::Logs | AppMode::Describe | AppMode::YamlView | AppMode::TopView => None,
        AppMode::Search | AppMode::Confirm => None,
        _ => Some(4usize),
    }
}

/// The tab to highlight: the tab of the current mode, and for a detail
/// view or an overlay the tab of the mode it was entered from. Where that
/// has no tab either, a detail view highlights the pods and an overlay the
/// namespaces.
pub open spec fn spec_tab_index(mode: AppMode, previous: AppMode) -> usize {
    match own_tab(mode) {
        Some(tab) => tab,
        None => match own_tab(previous) {
            Some(tab) => tab,
            None => if mode.spec_is_detail_view() {
                1
            } else {
                0
            },
        },
    }
}

/// The tab that stands for `mode` as such.
fn tab_of(mode: AppMode) -> (tab: Option<usize>)
    ensures
        tab == own_tab(mode),
{
    match mode {
        AppMode::NamespaceList => Some(0),
        AppMode::PodList => Some(1),
        AppMode::ServiceList => Some(2),
        AppMode::DeploymentList => Some(3),
        AppMode::Help => Some(5),
        AppMode::Logs | AppMode::Describe | AppMode::YamlView | AppMode::TopView => None,
        AppMode::Search | AppMode::Confirm => None,
        _ => Some(4),
    }
}

/// The tab to highlight in the header.
#[verifier::when_used_as_spec(spec_tab_index)]
pub fn tab_index(mode: AppMode, previous: AppMode) -> (tab: usize)
    ensures
        tab == spec_tab_index(mode, previous),
        tab < TAB_COUNT,
{
    match tab_of(mode) {
        Some(tab) => tab,
        None => match tab_of(previous) {
            Some(tab) => tab,
            None => if mode.is_detail_view() {
                1
            } else {
                0
            },
        },
    }
}

/// The title of the header: the name of the dashboard, or the name of the
/// list for the lists of the second ring, in the chosen language.
pub open spec fn header_title_text(mode: AppMode, chinese: bool) -> Seq<char> {
    match mode {
        AppMode::StatefulSetList => if chinese {
            "StatefulSets 有状态应用集"@
        } else {
            "StatefulSets"@
        },
        AppMode::IngressList => if chinese {
            "Ingresses 入口管理"@
        } else {
            "Ingresses"@
        },
        AppMode::NetworkPolicyList => if chinese {
            "NetworkPolicies 网络策略"@
        } else {
            "NetworkPolicies"@
        },
        AppMode::RoleList => if chinese {
            "Roles 角色"@
        } else {
            "Roles"@
        },
        AppMode::RoleBindingList => if chinese {
            "RoleBindings 角色绑定"@
        } else {
            "RoleBindings"@
        },
        AppMode::ClusterRoleList => if chinese {
            "ClusterRoles 集群角色"@
        } else {
            "ClusterRoles"@
        },
        AppMode::ClusterRoleBindingList => if chinese {
            "ClusterRoleBindings 集群角色绑定"@
        } else {
            "ClusterRoleBindings"@
        },
        AppMode::ServiceAccountList => if chinese {
            "ServiceAccounts 服务账户"@
        } else {
            "ServiceAccounts"@
        },
        _ => "Kube TUI"@,
    }
}

/// The title of the header.
pub fn header_title(mode: AppMode, chinese: bool) -> (title: &'static str)
    ensures
        title@ == header_title_text(mode, chinese),
{
    match mode {
        AppMode::StatefulSetList => if chinese {
            "StatefulSets 有状态应用集"
        } else {
            "StatefulSets"
        },
        AppMode::IngressList => if chinese {
            "Ingresses 入口管理"
        } else {
            "Ingresses"
        },
        AppMode::NetworkPolicyList => if chinese {
            "NetworkPolicies 网络策略"
        } else {
            "NetworkPolicies"
        },
        AppMode::RoleList => if chinese {
            "Roles 角色"
        } else {
            "Roles"
        },
        AppMode::RoleBindingList => if chinese {
            "RoleBindings 角色绑定"
        } else {
            "RoleBindings"
        },
        AppMode::ClusterRoleList => if chinese {
            "ClusterRoles 集群角色"
        } else {
            "ClusterRoles"
        },
        AppMode::ClusterRoleBindingList => if chinese {
            "ClusterRoleBindings 集群角色绑定"
        } else {
            "ClusterRoleBindings"
        },
        AppMode::ServiceAccountList => if chinese {
            "ServiceAccounts 服务账户"
        } else {
            "ServiceAccounts"
        },
        _ => "Kube TUI",
    }
}

/// The help line of the footer for `mode`, in the chosen language; the
/// log, description and manifest views name the mouse mode that `m`
/// switches to.
pub open spec fn footer_text(mode: AppMode, chinese: bool, text_selection: bool) -> Seq<char> {
    if chinese {
        match mode {
            AppMode::NamespaceList => "j/k ↑↓ 导航 • Enter 选择 • Tab/Shift+Tab 切换面板 • F1-F7 快速访问 • / 搜索 • I 切换语言 • q 退出 • ? 帮助"@,
            AppMode::PodList => "j/k 导航 • Space 详情 • Y YAML • T 监控 • L 日志 • D 删除 • E 进入 • / 搜索 • I 切换语言 • q 退出 • R 刷新"@,
            AppMode::ServiceList => "j/k 导航 • Space 详情 • Y YAML • D 删除 • / 搜索 • I 切换语言 • q 退出 • R 刷新"@,
            AppMode::DeploymentList => "j/k 导航 • Space 详情 • Y YAML • / 搜索 • I 切换语言 • q 退出 • R 刷新"@,
            AppMode::JobList => "j/k 导航 • Space 详情 • Y YAML • / 搜索 • I 切换语言 • q 退出 • R 刷新"@,
            AppMode::DaemonSetList => "j/k 导航 • Space 详情 • Y YAML • / 搜索 • I 切换语言 • q 退出 • R 刷新"@,
            AppMode::PVCList => "j/k 导航 • Space 详情 • Y YAML • / 搜索 • I 切换语言 • q 退出 • R 刷新"@,
            AppMode::PVList => "j/k 导航 • Space 详情 • Y YAML • / 搜索 • I 切换语言 • q 退出 • R 刷新"@,
            AppMode::NodeList => "j/k 导航 • Space 详情 • Y YAML • / 搜索 • I 切换语言 • q 退出 • R 刷新"@,
            AppMode::ConfigMapList => "j/k 导航 • Space 详情 • Y YAML • D 删除 • / 搜索 • I 切换语言 • q 退出 • R 刷新"@,
            AppMode::SecretList => "j/k 导航 • Space 详情 • Y YAML • D 删除 • / 搜索 • I 切换语言 • q 退出 • R 刷新"@,
            AppMode::StatefulSetList => "j/k 导航 • Space 详情 • Y YAML • / 搜索 • I 切换语言 • q 退出 • R 刷新"@,
            AppMode::IngressList => "j/k 导航 • Space 详情 • Y YAML • / 搜索 • I 切换语言 • q 退出 • R 刷新"@,
            AppMode::NetworkPolicyList => "j/k 导航 • Space 详情 • Y YAML • / 搜索 • I 切换语言 • q 退出 • R 刷新"@,
            AppMode::RoleList => "j/k 导航 • Space 详情 • Y YAML • / 搜索 • I 切换语言 • q 退出 • R 刷新"@,
            AppMode::RoleBindingList => "j/k 导航 • Space 详情 • Y YAML • / 搜索 • I 切换语言 • q 退出 • R 刷新"@,
            AppMode::ClusterRoleList => "j/k 导航 • Space 详情 • Y YAML • / 搜索 • I 切换语言 • q 退出 • R 刷新"@,
            AppMode::ClusterRoleBindingList => "j/k 导航 • Space 详情 • Y YAML • / 搜索 • I 切换语言 • q 退出 • R 刷新"@,
            AppMode::ServiceAccountList => "j/k 导航 • Space 详情 • Y YAML • / 搜索 • I 切换语言 • q 退出 • R 刷新"@,
            AppMode::Logs => if text_selection {
                "j/k 滚动 • PgUp/PgDn 翻页 • A 切换自动滚动 • R 切换自动刷新 • M 切换到滚轮模式 • 可选中复制文本 • I 切换语言 • Esc 返回 • q 退出"@
            } else {
                "j/k 滚动 • PgUp/PgDn 翻页 • A 切换自动滚动 • R 切换自动刷新 • M 切换到选择模式 • 鼠标滚轮滚动 • I 切换语言 • Esc 返回 • q 退出"@
            },
            AppMode::Describe => if text_selection {
                "j/k 滚动 • R 切换自动刷新 • M 切换到滚轮模式 • 可选中复制文本 • I 切换语言 • Esc 返回 • q 退出"@
            } else {
                "j/k 滚动 • R 切换自动刷新 • M 切换到选择模式 • 鼠标滚轮滚动 • I 切换语言 • Esc 返回 • q 退出"@
            },
            AppMode::YamlView => if text_selection {
                "j/k 滚动 • R 切换自动刷新 • M 切换到滚轮模式 • 可选中复制文本 • I 切换语言 • Esc 返回 • q 退出"@
            } else {
                "j/k 滚动 • R 切换自动刷新 • M 切换到选择模式 • 鼠标滚轮滚动 • I 切换语言 • Esc 返回 • q 退出"@
            },
            AppMode::TopView => "j/k 滚动 • PgUp/PgDn 翻页 • I 切换语言 • Esc 返回 • q 退出"@,
            AppMode::Search => "输入搜索内容 • Enter 选择 • I 切换语言 • Esc 取消"@,
            AppMode::Confirm => "y/Y 确认 • n/N/Esc 取消"@,
            AppMode::Help => "I 切换语言 • Esc 返回 • q 退出"@,
            AppMode::MoreResources => "1-9 访问资源 • Tab/Shift+Tab 切换面板 • Esc 返回 • q 退出"@,
        }
    } else {
        match mode {
            AppMode::NamespaceList => "j/k ↑↓ Navigate • Enter Select • Tab/Shift+Tab Switch panels • F1-F7 Quick access • / Search • I Language • q Quit • ? Help"@,
            AppMode::PodList => "j/k Navigate • Space Describe • Y YAML • T Top • L Logs • D Delete • E Exec • / Search • I Language • q Quit • R Refresh"@,
            AppMode::ServiceList => "j/k Navigate • Space Describe • Y YAML • D Delete • / Search • I Language • q Quit • R Refresh"@,
            AppMode::DeploymentList => "j/k Navigate • Space Describe • Y YAML • / Search • I Language • q Quit • R Refresh"@,
            AppMode::JobList => "j/k Navigate • Space Describe • Y YAML • / Search • I Language • q Quit • R Refresh"@,
            AppMode::DaemonSetList => "j/k Navigate • Space Describe • Y YAML • / Search • I Language • q Quit • R Refresh"@,
            AppMode::PVCList => "j/k Navigate • Space Describe • Y YAML • / Search • I Language • q Quit • R Refresh"@,
            AppMode::PVList => "j/k Navigate • Space Describe • Y YAML • / Search • I Language • q Quit • R Refresh"@,
            AppMode::NodeList => "j/k Navigate • Space Describe • Y YAML • / Search • I Language • q Quit • R Refresh"@,
            AppMode::ConfigMapList => "j/k Navigate • Space Describe • Y YAML • D Delete • / Search • I Language • q Quit • R Refresh"@,
            AppMode::SecretList => "j/k Navigate • Space Describe • Y YAML • D Delete • / Search • I Language • q Quit • R Refresh"@,
            AppMode::StatefulSetList => "j/k Navigate • Space Describe • Y YAML • / Search • I Language • q Quit • R Refresh"@,
            AppMode::IngressList => "j/k Navigate • Space Describe • Y YAML • / Search • I Language • q Quit • R Refresh"@,
            AppMode::NetworkPolicyList => "j/k Navigate • Space Describe • Y YAML • / Search • I Language • q Quit • R Refresh"@,
            AppMode::RoleList => "j/k Navigate • Space Describe • Y YAML • / Search • I Language • q Quit • R Refresh"@,
            AppMode::RoleBindingList => "j/k Navigate • Space Describe • Y YAML • / Search • I Language • q Quit • R Refresh"@,
            AppMode::ClusterRoleList => "j/k Navigate • Space Describe • Y YAML • / Search • I Language • q Quit • R Refresh"@,
            AppMode::ClusterRoleBindingList => "j/k Navigate • Space Describe • Y YAML • / Search • I Language • q Quit • R Refresh"@,
            AppMode::ServiceAccountList => "j/k Navigate • Space Describe • Y YAML • / Search • I Language • q Quit • R Refresh"@,
            AppMode::Logs => if text_selection {
                "j/k Scroll • PgUp/PgDn Page • A Toggle Auto-scroll • R Toggle Auto-refresh • M Switch to scroll mode • Can select text • I Language • Esc Back • q Quit"@
            } else {
                "j/k Scroll • PgUp/PgDn Page • A Toggle Auto-scroll • R Toggle Auto-refresh • M Switch to select mode • Mouse wheel scroll • I Language • Esc Back • q Quit"@
            },
            AppMode::Describe => if text_selection {
                "j/k Scroll • R Toggle Auto-refresh • M Switch to scroll mode • Can select text • I Language • Esc Back • q Quit"@
            } else {
                "j/k Scroll • R Toggle Auto-refresh • M Switch to select mode • Mouse wheel scroll • I Language • Esc Back • q Quit"@
            },
            AppMode::YamlView => if text_selection {
                "j/k Scroll • R Toggle Auto-refresh • M Switch to scroll mode • Can select text • I Language • Esc Back • q Quit"@
            } else {
                "j/k Scroll • R Toggle Auto-refresh • M Switch to select mode • Mouse wheel scroll • I Language • Esc Back • q Quit"@
            },
            AppMode::TopView => "j/k Scroll • PgUp/PgDn Page • I Language • Esc Back • q Quit"@,
            AppMode::Search => "Type to search • Enter Select • I Language • Esc Cancel"@,
            AppMode::Confirm => "y/Y Confirm • n/N/Esc Cancel"@,
            AppMode::Help => "I Language • Esc Back • q Quit"@,
            AppMode::MoreResources => "1-9 Access resources • Tab/Shift+Tab Switch panels • Esc Back • q Quit"@,
        }
    }
}

/// The help line of the footer.
pub fn footer_help_text(mode: AppMode, chinese: bool, text_selection: bool) -> (text: &'static str)
    ensures
        text@ == footer_text(mode, chinese, text_selection),
{
    if chinese {
        match mode {
            AppMode::NamespaceList => "j/k ↑↓ 导航 • Enter 选择 • Tab/Shift+Tab 切换面板 • F1-F7 快速访问 • / 搜索 • I 切换语言 • q 退出 • ? 帮助",
            AppMode::PodList => "j/k 导航 • Space 详情 • Y YAML • T 监控 • L 日志 • D 删除 • E 进入 • / 搜索 • I 切换语言 • q 退出 • R 刷新",
            AppMode::ServiceList => "j/k 导航 • Space 详情 • Y YAML • D 删除 • / 搜索 • I 切换语言 • q 退出 • R 刷新",
            AppMode::DeploymentList => "j/k 导航 • Space 详情 • Y YAML • / 搜索 • I 切换语言 • q 退出 • R 刷新",
            AppMode::JobList => "j/k 导航 • Space 详情 • Y YAML • / 搜索 • I 切换语言 • q 退出 • R 刷新",
            AppMode::DaemonSetList => "j/k 导航 • Space 详情 • Y YAML • / 搜索 • I 切换语言 • q 退出 • R 刷新",
            AppMode::PVCList => "j/k 导航 • Space 详情 • Y YAML • / 搜索 • I 切换语言 • q 退出 • R 刷新",
            AppMode::PVList => "j/k 导航 • Space 详情 • Y YAML • / 搜索 • I 切换语言 • q 退出 • R 刷新",
            AppMode::NodeList => "j/k 导航 • Space 详情 • Y YAML • / 搜索 • I 切换语言 • q 退出 • R 刷新",
            AppMode::ConfigMapList => "j/k 导航 • Space 详情 • Y YAML • D 删除 • / 搜索 • I 切换语言 • q 退出 • R 刷新",
            AppMode::SecretList => "j/k 导航 • Space 详情 • Y YAML • D 删除 • / 搜索 • I 切换语言 • q 退出 • R 刷新",
            AppMode::StatefulSetList => "j/k 导航 • Space 详情 • Y YAML • / 搜索 • I 切换语言 • q 退出 • R 刷新",
            AppMode::IngressList => "j/k 导航 • Space 详情 • Y YAML • / 搜索 • I 切换语言 • q 退出 • R 刷新",
            AppMode::NetworkPolicyList => "j/k 导航 • Space 详情 • Y YAML • / 搜索 • I 切换语言 • q 退出 • R 刷新",
            AppMode::RoleList => "j/k 导航 • Space 详情 • Y YAML • / 搜索 • I 切换语言 • q 退出 • R 刷新",
            AppMode::RoleBindingList => "j/k 导航 • Space 详情 • Y YAML • / 搜索 • I 切换语言 • q 退出 • R 刷新",
            AppMode::ClusterRoleList => "j/k 导航 • Space 详情 • Y YAML • / 搜索 • I 切换语言 • q 退出 • R 刷新",
            AppMode::ClusterRoleBindingList => "j/k 导航 • Space 详情 • Y YAML • / 搜索 • I 切换语言 • q 退出 • R 刷新",
            AppMode::ServiceAccountList => "j/k 导航 • Space 详情 • Y YAML • / 搜索 • I 切换语言 • q 退出 • R 刷新",
            AppMode::Logs => if text_selection {
                "j/k 滚动 • PgUp/PgDn 翻页 • A 切换自动滚动 • R 切换自动刷新 • M 切换到滚轮模式 • 可选中复制文本 • I 切换语言 • Esc 返回 • q 退出"
            } else {
                "j/k 滚动 • PgUp/PgDn 翻页 • A 切换自动滚动 • R 切换自动刷新 • M 切换到选择模式 • 鼠标滚轮滚动 • I 切换语言 • Esc 返回 • q 退出"
            },
            AppMode::Describe => if text_selection {
                "j/k 滚动 • R 切换自动刷新 • M 切换到滚轮模式 • 可选中复制文本 • I 切换语言 • Esc 返回 • q 退出"
            } else {
                "j/k 滚动 • R 切换自动刷新 • M 切换到选择模式 • 鼠标滚轮滚动 • I 切换语言 • Esc 返回 • q 退出"
            },
            AppMode::YamlView => if text_selection {
                "j/k 滚动 • R 切换自动刷新 • M 切换到滚轮模式 • 可选中复制文本 • I 切换语言 • Esc 返回 • q 退出"
            } else {
                "j/k 滚动 • R 切换自动刷新 • M 切换到选择模式 • 鼠标滚轮滚动 • I 切换语言 • Esc 返回 • q 退出"
            },
            AppMode::TopView => "j/k 滚动 • PgUp/PgDn 翻页 • I 切换语言 • Esc 返回 • q 退出",
            AppMode::Search => "输入搜索内容 • Enter 选择 • I 切换语言 • Esc 取消",
            AppMode::Confirm => "y/Y 确认 • n/N/Esc 取消",
            AppMode::Help => "I 切换语言 • Esc 返回 • q 退出",
            AppMode::MoreResources => "1-9 访问资源 • Tab/Shift+Tab 切换面板 • Esc 返回 • q 退出",
        }
    } else {
        match mode {
            AppMode::NamespaceList => "j/k ↑↓ Navigate • Enter Select • Tab/Shift+Tab Switch panels • F1-F7 Quick access • / Search • I Language • q Quit • ? Help",
            AppMode::PodList => "j/k Navigate • Space Describe • Y YAML • T Top • L Logs • D Delete • E Exec • / Search • I Language • q Quit • R Refresh",
            AppMode::ServiceList => "j/k Navigate • Space Describe • Y YAML • D Delete • / Search • I Language • q Quit • R Refresh",
            AppMode::DeploymentList => "j/k Navigate • Space Describe • Y YAML • / Search • I Language • q Quit • R Refresh",
            AppMode::JobList => "j/k Navigate • Space Describe • Y YAML • / Search • I Language • q Quit • R Refresh",
            AppMode::DaemonSetList => "j/k Navigate • Space Describe • Y YAML • / Search • I Language • q Quit • R Refresh",
            AppMode::PVCList => "j/k Navigate • Space Describe • Y YAML • / Search • I Language • q Quit • R Refresh",
            AppMode::PVList => "j/k Navigate • Space Describe • Y YAML • / Search • I Language • q Quit • R Refresh",
            AppMode::NodeList => "j/k Navigate • Space Describe • Y YAML • / Search • I Language • q Quit • R Refresh",
            AppMode::ConfigMapList => "j/k Navigate • Space Describe • Y YAML • D Delete • / Search • I Language • q Quit • R Refresh",
            AppMode::SecretList => "j/k Navigate • Space Describe • Y YAML • D Delete • / Search • I Language • q Quit • R Refresh",
            AppMode::StatefulSetList => "j/k Navigate • Space Describe • Y YAML • / Search • I Language • q Quit • R Refresh",
            AppMode::IngressList => "j/k Navigate • Space Describe • Y YAML • / Search • I Language • q Quit • R Refresh",
            AppMode::NetworkPolicyList => "j/k Navigate • Space Describe • Y YAML • / Search • I Language • q Quit • R Refresh",
            AppMode::RoleList => "j/k Navigate • Space Describe • Y YAML • / Search • I Language • q Quit • R Refresh",
            AppMode::RoleBindingList => "j/k Navigate • Space Describe • Y YAML • / Search • I Language • q Quit • R Refresh",
            AppMode::ClusterRoleList => "j/k Navigate • Space Describe • Y YAML • / Search • I Language • q Quit • R Refresh",
            AppMode::ClusterRoleBindingList => "j/k Navigate • Space Describe • Y YAML • / Search • I Language • q Quit • R Refresh",
            AppMode::ServiceAccountList => "j/k Navigate • Space Describe • Y YAML • / Search • I Language • q Quit • R Refresh",
            AppMode::Logs => if text_selection {
                "j/k Scroll • PgUp/PgDn Page • A Toggle Auto-scroll • R Toggle Auto-refresh • M Switch to scroll mode • Can select text • I Language • Esc Back • q Quit"
            } else {
                "j/k Scroll • PgUp/PgDn Page • A Toggle Auto-scroll • R Toggle Auto-refresh • M Switch to select mode • Mouse wheel scroll • I Language • Esc Back • q Quit"
            },
            AppMode::Describe => if text_selection {
                "j/k Scroll • R Toggle Auto-refresh • M Switch to scroll mode • Can select text • I Language • Esc Back • q Quit"
            } else {
                "j/k Scroll • R Toggle Auto-refresh • M Switch to select mode • Mouse wheel scroll • I Language • Esc Back • q Quit"
            },
            AppMode::YamlView => if text_selection {
                "j/k Scroll • R Toggle Auto-refresh • M Switch to scroll mode • Can select text • I Language • Esc Back • q Quit"
            } else {
                "j/k Scroll • R Toggle Auto-refresh • M Switch to select mode • Mouse wheel scroll • I Language • Esc Back • q Quit"
            },
            AppMode::TopView => "j/k Scroll • PgUp/PgDn Page • I Language • Esc Back • q Quit",
            AppMode::Search => "Type to search • Enter Select • I Language • Esc Cancel",
            AppMode::Confirm => "y/Y Confirm • n/N/Esc Cancel",
            AppMode::Help => "I Language • Esc Back • q Quit",
            AppMode::MoreResources => "1-9 Access resources • Tab/Shift+Tab Switch panels • Esc Back • q Quit",
        }
    }
}

/// How a kind is called in the sentence that says that nothing is
/// selected.
pub open spec fn kind_label(kind: ResourceKind) -> Seq<char> {
    match kind {
        ResourceKind::Namespace => "namespace"@,
        ResourceKind::Pod => "pod"@,
        ResourceKind::Service => "service"@,
        ResourceKind::Deployment => "deployment"@,
        ResourceKind::Job => "job"@,
        ResourceKind::DaemonSet => "daemonset"@,
        ResourceKind::PVC => "pvc"@,
        ResourceKind::PV => "pv"@,
        ResourceKind::Node => "node"@,
        ResourceKind::ConfigMap => "configmap"@,
        ResourceKind::Secret => "secret"@,
        ResourceKind::StatefulSet => "statefulset"@,
        ResourceKind::Ingress => "ingress"@,
        ResourceKind::NetworkPolicy => "network policy"@,
        ResourceKind::Role => "role"@,
        ResourceKind::RoleBinding => "role binding"@,
        ResourceKind::ClusterRole => "cluster role"@,
        ResourceKind::ClusterRoleBinding => "cluster role binding"@,
        ResourceKind::ServiceAccount => "service account"@,
    }
}

/// How a kind is called in the sentence that says that nothing is
/// selected.
fn label_of(kind: ResourceKind) -> (label: &'static str)
    ensures
        label@ == kind_label(kind),
{
    match kind {
        ResourceKind::Namespace => "namespace",
        ResourceKind::Pod => "pod",
        ResourceKind::Service => "service",
        ResourceKind::Deployment => "deployment",
        ResourceKind::Job => "job",
        ResourceKind::DaemonSet => "daemonset",
        ResourceKind::PVC => "pvc",
        ResourceKind::PV => "pv",
        ResourceKind::Node => "node",
        ResourceKind::ConfigMap => "configmap",
        ResourceKind::Secret => "secret",
        ResourceKind::StatefulSet => "statefulset",
        ResourceKind::Ingress => "ingress",
        ResourceKind::NetworkPolicy => "network policy",
        ResourceKind::Role => "role",
        ResourceKind::RoleBinding => "role binding",
        ResourceKind::ClusterRole => "cluster role",
        ResourceKind::ClusterRoleBinding => "cluster role binding",
        ResourceKind::ServiceAccount => "service account",
    }
}

/// The word by which the tool lists the objects of `kind`.
fn plural_of(kind: ResourceKind) -> (word: &'static str)
    ensures
        word@ == plural_word(kind),
{
    match kind {
        ResourceKind::Namespace => "namespaces",
        ResourceKind::Pod => "pods",
        ResourceKind::Service => "services",
        ResourceKind::Deployment => "deployments",
        ResourceKind::Job => "jobs",
        ResourceKind::DaemonSet => "daemonsets",
        ResourceKind::PVC => "pvc",
        ResourceKind::PV => "pv",
        ResourceKind::Node => "nodes",
        ResourceKind::ConfigMap => "configmaps",
        ResourceKind::Secret => "secrets",
        ResourceKind::StatefulSet => "statefulsets",
        ResourceKind::Ingress => "ingresses",
        ResourceKind::NetworkPolicy => "networkpolicies",
        ResourceKind::Role => "roles",
        ResourceKind::RoleBinding => "rolebindings",
        ResourceKind::ClusterRole => "clusterroles",
        ResourceKind::ClusterRoleBinding => "clusterrolebindings",
        ResourceKind::ServiceAccount => "serviceaccounts",
    }
}

/// The command line that lists the objects of `kind`.
pub open spec fn list_hint(kind: ResourceKind, namespace: Seq<char>) -> Seq<char> {
    if kind.spec_is_namespaced() {
        "kubectl get "@ + plural_word(kind) + " -n "@ + namespace
    } else {
        "kubectl get "@ + plural_word(kind)
    }
}

/// The command line `kubectl <verb> <kind> [-n <namespace>] <name>`.
pub open spec fn object_hint(
    verb: Seq<char>,
    kind: ResourceKind,
    namespace: Seq<char>,
    name: Seq<char>,
) -> Seq<char> {
    if kind.spec_is_namespaced() {
        "kubectl "@ + verb + " "@ + singular_word(kind) + " -n "@ + namespace + " "@ + name
    } else {
        "kubectl "@ + verb + " "@ + singular_word(kind) + " "@ + name
    }
}

/// Whether the manifest view names its command for lists of `kind`.
pub open spec fn spec_shows_yaml_hint(kind: ResourceKind) -> bool {
    !(kind == ResourceKind::Namespace || kind == ResourceKind::Job || kind
        == ResourceKind::DaemonSet || kind == ResourceKind::ConfigMap || kind
        == ResourceKind::Secret || kind == ResourceKind::PVC || kind == ResourceKind::PV)
}

/// Whether the manifest view names its command for lists of `kind`.
#[verifier::when_used_as_spec(spec_shows_yaml_hint)]
pub fn shows_yaml_hint(kind: ResourceKind) -> (shown: bool)
    ensures
        shown == spec_shows_yaml_hint(kind),
{
    match kind {
        ResourceKind::Namespace
        | ResourceKind::Job
        | ResourceKind::DaemonSet
        | ResourceKind::ConfigMap
        | ResourceKind::Secret
        | ResourceKind::PVC
        | ResourceKind::PV => false,
        _ => true,
    }
}

impl AppView {
    /// The kind of the list that the current detail view was entered
    /// from, unless that was the namespace list or no list at all.
    pub open spec fn hint_kind(self) -> Option<ResourceKind> {
        match self.modes.previous.spec_resource_kind() {
            Some(kind) => if kind == ResourceKind::Namespace {
                None
            } else {
                Some(kind)
            },
            None => None,
        }
    }

    /// The command that stands for what the description view shows.
    pub open spec fn describe_hint(self) -> Seq<char> {
        match self.hint_kind() {
            Some(kind) => match self.resources.selected_name(kind) {
                Some(name) => object_hint("describe"@, kind, self.current_namespace, name),
                None => "Describe Mode - No "@ + kind_label(kind) + " selected"@,
            },
            None => "Describe Mode"@,
        }
    }

    /// The command that stands for what the manifest view shows.
    pub open spec fn yaml_hint(self) -> Seq<char> {
        match self.hint_kind() {
            Some(kind) => if !spec_shows_yaml_hint(kind) {
                "YAML View Mode"@
            } else {
                match self.resources.selected_name(kind) {
                    Some(name) => object_hint("get"@, kind, self.current_namespace, name)
                        + " -o yaml"@,
                    None => "YAML View Mode - No "@ + kind_label(kind) + " selected"@,
                }
            },
            None => "YAML View Mode"@,
        }
    }

    /// The command that stands for what the current mode shows.
    pub open spec fn mode_hint(self) -> Seq<char> {
        match self.modes.current {
            AppMode::Logs => match self.resources.selected_name(ResourceKind::Pod) {
                Some(pod) => "kubectl logs -f -n "@ + self.current_namespace + " "@ + pod
                    + " --tail=100"@,
                None => "Logs Mode - No pod selected"@,
            },
            AppMode::Describe => self.describe_hint(),
            AppMode::YamlView => self.yaml_hint(),
            AppMode::TopView => "kubectl top pods -n "@ + self.current_namespace,
            AppMode::Search => "Search Mode"@,
            AppMode::Confirm => "Confirmation Mode"@,
            AppMode::Help => "Help Mode"@,
            AppMode::MoreResources => "More Resources Panel"@,
            _ => match self.modes.current.spec_resource_kind() {
                Some(kind) => list_hint(kind, self.current_namespace),
                None => Seq::empty(),
            },
        }
    }

    /// The text of the command line while no command runs: the command
    /// that stands for the current mode.
    pub open spec fn command_text(self) -> Seq<char> {
        if self.current_command.len() > 0 {
            "Executing: "@ + self.current_command
        } else {
            self.mode_hint()
        }
    }

    /// The whole command line: the command, the hint at the refresh key,
    /// and the refresh status where there is one.
    pub open spec fn command_line(self) -> Seq<char> {
        if self.refresh_status_text.len() > 0 {
            self.command_text() + " - Press 'R' to refresh "@ + self.refresh_status_text
        } else {
            self.command_text() + " - Press 'R' to refresh"@
        }
    }
}

/// The command line `kubectl <verb> <kind> [-n <namespace>] <name>`.
fn object_command(verb: &str, kind: ResourceKind, namespace: &str, name: &str) -> (text: String)
    ensures
        text@ == object_hint(verb@, kind, namespace@, name@),
{
    let mut text = String::from_str("kubectl ");
    text.append(verb);
    text.append(" ");
    text.append(resource_word(kind));
    if kind.is_namespaced() {
        text.append(" -n ");
        text.append(namespace);
    }
    text.append(" ");
    text.append(name);
    assert(text@ =~= object_hint(verb@, kind, namespace@, name@));
    text
}

/// The sentence that says that no object of `kind` is selected, after
/// `prefix`.
fn nothing_selected(prefix: &str, kind: ResourceKind) -> (text: String)
    ensures
        text@ == prefix@ + kind_label(kind) + " selected"@,
{
    let mut text = String::from_str(prefix);
    text.append(label_of(kind));
    text.append(" selected");
    text
}

impl AppState {
    /// The kind of the list that the current detail view was entered
    /// from, unless that was the namespace list or no list at all.
    fn hint_kind(&self) -> (kind: Option<ResourceKind>)
        ensures
            kind == self@.hint_kind(),
    {
        match self.modes.previous.resource_kind() {
            Some(ResourceKind::Namespace) => None,
            other => other,
        }
    }

    /// The command that stands for what the description view shows.
    fn describe_hint(&self) -> (text: String)
        ensures
            text@ == self@.describe_hint(),
    {
        match self.hint_kind() {
            Some(kind) => match self.resources.selected_name(kind) {
                Some(name) => object_command(
                    "describe",
                    kind,
                    self.current_namespace.as_str(),
                    name.as_str(),
                ),
                None => nothing_selected("Describe Mode - No ", kind),
            },
            None => String::from_str("Describe Mode"),
        }
    }

    /// The command that stands for what the manifest view shows.
    fn yaml_hint(&self) -> (text: String)
        ensures
            text@ == self@.yaml_hint(),
    {
        match self.hint_kind() {
            Some(kind) => {
                if !shows_yaml_hint(kind) {
                    String::from_str("YAML View Mode")
                } else {
                    match self.resources.selected_name(kind) {
                        Some(name) => {
                            let mut text = object_command(
                                "get",
                                kind,
                                self.current_namespace.as_str(),
                                name.as_str(),
                            );
                            text.append(" -o yaml");
                            text
                        },
                        None => nothing_selected("YAML View Mode - No ", kind),
                    }
                }
            },
            None => String::from_str("YAML View Mode"),
        }
    }

    /// The command that stands for what the current mode shows.
    fn mode_hint(&self) -> (text: String)
        ensures
            text@ == self@.mode_hint(),
    {
        match self.modes.current {
            AppMode::Logs => match self.resources.selected_name(ResourceKind::Pod) {
                Some(pod) => {
                    let mut text = String::from_str("kubectl logs -f -n ");
                    text.append(self.current_namespace.as_str());
                    text.append(" ");
                    text.append(pod.as_str());
                    text.append(" --tail=100");
                    text
                },
                None => String::from_str("Logs Mode - No pod selected"),
            },
            AppMode::Describe => self.describe_hint(),
            AppMode::YamlView => self.yaml_hint(),
            AppMode::TopView => {
                let mut text = String::from_str("kubectl top pods -n ");
                text.append(self.current_namespace.as_str());
                text
            },
            AppMode::Search => String::from_str("Search Mode"),
            AppMode::Confirm => String::from_str("Confirmation Mode"),
            AppMode::Help => String::from_str("Help Mode"),
            AppMode::MoreResources => String::from_str("More Resources Panel"),
            mode => match mode.resource_kind() {
                Some(kind) => {
                    let mut text = String::from_str("kubectl get ");
                    text.append(plural_of(kind));
                    if kind.is_namespaced() {
                        text.append(" -n ");
                        text.append(self.current_namespace.as_str());
                    }
                    text
                },
                None => String::new(),
            },
        }
    }

    /// The tab to highlight in the header.
    pub fn header_tab_index(&self) -> (tab: usize)
        ensures
            tab == spec_tab_index(self@.modes.current, self@.modes.previous),
            tab < TAB_COUNT,
    {
        tab_index(self.modes.current, self.modes.previous)
    }

    /// The title of the header.
    pub fn header_title(&self) -> (title: &'static str)
        ensures
            title@ == header_title_text(self@.modes.current, self@.language_chinese),
    {
        header_title(self.modes.current, self.language_chinese)
    }

    /// The help line of the footer.
    pub fn footer_help_text(&self) -> (text: &'static str)
        ensures
            text@ == footer_text(
                self@.modes.current,
                self@.language_chinese,
                self@.text_selection_mode,
            ),
    {
        footer_help_text(self.modes.current, self.language_chinese, self.text_selection_mode)
    }

    /// The text of the command line: the command that runs, if one does,
    /// else the command that stands for the current mode; then the hint at
    /// the refresh key and the refresh status.
    pub fn command_line_text(&self) -> (text: String)
        ensures
            text@ == self@.command_line(),
    {
        let mut text = if !self.current_command.as_str().is_empty() {
            let mut text = String::from_str("Executing: ");
            text.append(self.current_command.as_str());
            text
        } else {
            self.mode_hint()
        };
        if !self.refresh_status_text.as_str().is_empty() {
            text.append(" - Press 'R' to refresh ");
            text.append(self.refresh_status_text.as_str());
        } else {
            text.append(" - Press 'R' to refresh");
        }
        text
    }
}

/// The lines to show of a text of `total` lines scrolled to `offset` in a
/// viewport of `height` lines: from the offset, or from the end if the
/// offset lies beyond it, as many lines as fit.
pub fn visible_range(offset: usize, total: usize, height: usize) -> (range: (usize, usize))
    ensures
        range.0 == if offset <= total {
            offset
        } else {
            total
        },
        range.1 == if range.0 + height <= total {
            range.0 + height
        } else {
            total as int
        },
        range.0 <= range.1 <= total,
{
    let start: usize = if offset <= total {
        offset
    } else {
        total
    };
    let end: usize = if height <= total - start {
        start + height
    } else {
        total
    };
    (start, end)
}

/// Whether a scroll bar is shown: only where not all lines fit.
pub fn needs_scrollbar(total: usize, height: usize) -> (needed: bool)
    ensures
        needed == (total > height),
{
    total > height
}

/// The name of a kind as titles and questions show it.
pub open spec fn display_name(kind: ResourceKind) -> Seq<char> {
    match kind {
        ResourceKind::Namespace => "Namespace"@,
        ResourceKind::Pod => "Pod"@,
        ResourceKind::Service => "Service"@,
        ResourceKind::Deployment => "Deployment"@,
        ResourceKind::Job => "Job"@,
        ResourceKind::DaemonSet => "DaemonSet"@,
        ResourceKind::PVC => "PVC"@,
        ResourceKind::PV => "PV"@,
        ResourceKind::Node => "Node"@,
        ResourceKind::ConfigMap => "ConfigMap"@,
        ResourceKind::Secret => "Secret"@,
        ResourceKind::StatefulSet => "StatefulSet"@,
        ResourceKind::Ingress => "Ingress"@,
        ResourceKind::NetworkPolicy => "NetworkPolicy"@,
        ResourceKind::Role => "Role"@,
        ResourceKind::RoleBinding => "RoleBinding"@,
        ResourceKind::ClusterRole => "ClusterRole"@,
        ResourceKind::ClusterRoleBinding => "ClusterRoleBinding"@,
        ResourceKind::ServiceAccount => "ServiceAccount"@,
    }
}

/// The name of a kind as titles and questions show it.
pub fn kind_display_name(kind: ResourceKind) -> (name: &'static str)
    ensures
        name@ == display_name(kind),
{
    match kind {
        ResourceKind::Namespace => "Namespace",
        ResourceKind::Pod => "Pod",
        ResourceKind::Service => "Service",
        ResourceKind::Deployment => "Deployment",
        ResourceKind::Job => "Job",
        ResourceKind::DaemonSet => "DaemonSet",
        ResourceKind::PVC => "PVC",
        ResourceKind::PV => "PV",
        ResourceKind::Node => "Node",
        ResourceKind::ConfigMap => "ConfigMap",
        ResourceKind::Secret => "Secret",
        ResourceKind::StatefulSet => "StatefulSet",
        ResourceKind::Ingress => "Ingress",
        ResourceKind::NetworkPolicy => "NetworkPolicy",
        ResourceKind::Role => "Role",
        ResourceKind::RoleBinding => "RoleBinding",
        ResourceKind::ClusterRole => "ClusterRole",
        ResourceKind::ClusterRoleBinding => "ClusterRoleBinding",
        ResourceKind::ServiceAccount => "ServiceAccount",
    }
}

/// Whether the description and manifest views have a title of their own
/// for lists of `kind`.
pub open spec fn spec_has_detail_title(kind: ResourceKind) -> bool {
    kind == ResourceKind::Pod || kind == ResourceKind::Service || kind == ResourceKind::Deployment
        || kind == ResourceKind::Job || kind == ResourceKind::DaemonSet || kind
        == ResourceKind::Node || kind == ResourceKind::ConfigMap || kind == ResourceKind::Secret
        || kind == ResourceKind::PVC || kind == ResourceKind::PV
}

/// Whether the description and manifest views have a title of their own
/// for lists of `kind`.
#[verifier::when_used_as_spec(spec_has_detail_title)]
pub fn has_detail_title(kind: ResourceKind) -> (has: bool)
    ensures
        has == spec_has_detail_title(kind),
{
    match kind {
        ResourceKind::Pod
        | ResourceKind::Service
        | ResourceKind::Deployment
        | ResourceKind::Job
        | ResourceKind::DaemonSet
        | ResourceKind::Node
        | ResourceKind::ConfigMap
        | ResourceKind::Secret
        | ResourceKind::PVC
        | ResourceKind::PV => true,
        _ => false,
    }
}

/// How an object is addressed in a title: by namespace and name, or by
/// its name alone where its kind lives outside namespaces.
pub open spec fn address(kind: ResourceKind, namespace: Seq<char>, name: Seq<char>) -> Seq<char> {
    if kind.spec_is_namespaced() {
        namespace + "/"@ + name
    } else {
        name
    }
}

/// How an object is addressed in a title.
fn address_of(kind: ResourceKind, namespace: &str, name: &str) -> (text: String)
    ensures
        text@ == address(kind, namespace@, name@),
{
    if kind.is_namespaced() {
        let mut text = String::from_str(namespace);
        text.append("/");
        text.append(name);
        text
    } else {
        String::from_str(name)
    }
}

/// "ON" or "OFF", in the chosen language.
pub open spec fn on_off(on: bool, chinese: bool) -> Seq<char> {
    if chinese {
        if on {
            "开启"@
        } else {
            "关闭"@
        }
    } else {
        if on {
            "ON"@
        } else {
            "OFF"@
        }
    }
}

/// "ON" or "OFF", in the chosen language.
fn on_off_text(on: bool, chinese: bool) -> (text: &'static str)
    ensures
        text@ == on_off(on, chinese),
{
    if chinese {
        if on {
            "开启"
        } else {
            "关闭"
        }
    } else {
        if on {
            "ON"
        } else {
            "OFF"
        }
    }
}

/// The question that asks for confirmation of a deletion, in the chosen
/// language.
pub open spec fn confirm_question(display: Seq<char>, object: Seq<char>, chinese: bool) -> Seq<
    char,
> {
    if chinese {
        "确定要删除"@ + display + " "@ + object + " 吗？此操作不可撤销。"@
            + "\n\n按 'y' 确认, 'n' 或 'Esc' 取消"@
    } else {
        "Are you sure you want to delete "@ + display + " "@ + object
            + "? This action cannot be undone."@
            + "\n\nPress 'y' to confirm, 'n' or 'Esc' to cancel"@
    }
}

/// The title of the dialog that asks for confirmation of a deletion.
pub open spec fn confirm_heading(display: Seq<char>, chinese: bool) -> Seq<char> {
    if chinese {
        "确认删除"@ + display
    } else {
        "Confirm Delete "@ + display
    }
}

impl AppView {
    /// The kind that the title of the current description or manifest view
    /// names.
    pub open spec fn titled_kind(self) -> Option<ResourceKind> {
        match self.modes.previous.spec_resource_kind() {
            Some(kind) => if spec_has_detail_title(kind) {
                Some(kind)
            } else {
                None
            },
            None => None,
        }
    }

    /// The title of the description view.
    pub open spec fn describe_title(self) -> Seq<char> {
        match self.titled_kind() {
            Some(kind) => match self.resources.selected_name(kind) {
                Some(name) => "Describe - "@ + display_name(kind) + " "@ + address(
                    kind,
                    self.current_namespace,
                    name,
                ) + " (J/K:scroll, PgUp/PgDn:page)"@,
                None => "Describe - "@ + display_name(kind),
            },
            None => "Describe"@,
        }
    }

    /// What the titles of the manifest view for pods and services add
    /// about the mouse mode.
    pub open spec fn mouse_mode_suffix(self) -> Seq<char> {
        if !self.text_selection_mode {
            Seq::empty()
        } else if self.language_chinese {
            " - 文本选择模式"@
        } else {
            " - Text Selection Mode"@
        }
    }

    /// The title of the manifest view.
    pub open spec fn yaml_title(self) -> Seq<char> {
        match self.titled_kind() {
            Some(kind) => if kind == ResourceKind::Pod || kind == ResourceKind::Service {
                match self.resources.selected_name(kind) {
                    Some(name) => "YAML配置 - "@ + display_name(kind) + ": "@ + address(
                        kind,
                        self.current_namespace,
                        name,
                    ) + self.mouse_mode_suffix() + "  "@ + if self.language_chinese {
                        "(j/k:滚动, M:切换模式, PgUp/PgDn:翻页)"@
                    } else {
                        "(j/k:scroll, M:toggle mode, PgUp/PgDn:page)"@
                    },
                    None => "YAML配置 - "@ + display_name(kind) + ": "@ + self.mouse_mode_suffix(),
                }
            } else {
                match self.resources.selected_name(kind) {
                    Some(name) => "YAML配置 - "@ + display_name(kind) + " "@ + address(
                        kind,
                        self.current_namespace,
                        name,
                    ) + " (j/k:滚动, PgUp/PgDn:翻页)"@,
                    None => "YAML配置 - "@ + display_name(kind),
                }
            },
            None => "YAML配置"@,
        }
    }

    /// The title of the log view.
    pub open spec fn logs_title(self) -> Seq<char> {
        let chinese = self.language_chinese;
        match self.resources.selected_name(ResourceKind::Pod) {
            Some(pod) => if chinese {
                "日志 - "@ + self.current_namespace + "/"@ + pod
                    + " (j/k:滚动, PgUp/PgDn:翻页, A:自动滚动:"@ + on_off(self.scroll.auto_follow, chinese)
                    + ", R:自动刷新:"@ + on_off(self.refresh.logs.enabled, chinese)
                    + ", M:切换鼠标模式:"@ + if self.text_selection_mode {
                    "文本选择"@
                } else {
                    "鼠标滚动"@
                } + ")"@
            } else {
                "Logs - "@ + self.current_namespace + "/"@ + pod
                    + " (j/k:scroll, PgUp/PgDn:page, A:auto-scroll:"@ + on_off(
                    self.scroll.auto_follow,
                    chinese,
                ) + ", R:auto-refresh:"@ + on_off(self.refresh.logs.enabled, chinese)
                    + ", M:toggle mouse mode:"@ + if self.text_selection_mode {
                    "Text Select"@
                } else {
                    "Mouse Scroll"@
                } + ")"@
            },
            None => if chinese {
                "日志"@
            } else {
                "Logs"@
            },
        }
    }

    /// Title and text of the dialog that asks for confirmation of the
    /// pending deletion; `None` while nothing is pending.
    pub open spec fn confirm_dialog(self) -> Option<(Seq<char>, Seq<char>)> {
        match self.pending {
            Some(action) => Some(
                (
                    confirm_heading(display_name(action.kind), self.language_chinese),
                    confirm_question(
                        display_name(action.kind),
                        match action.namespace {
                            Some(namespace) => namespace + "/"@ + action.name,
                            None => action.name,
                        },
                        self.language_chinese,
                    ),
                ),
            ),
            None => None,
        }
    }
}

impl AppState {
    /// The kind that the title of the current description or manifest view
    /// names.
    fn titled_kind(&self) -> (kind: Option<ResourceKind>)
        ensures
            kind == self@.titled_kind(),
    {
        match self.modes.previous.resource_kind() {
            Some(kind) => if has_detail_title(kind) {
                Some(kind)
            } else {
                None
            },
            None => None,
        }
    }

    /// The title of the description view: the kind and the address of the
    /// item it describes.
    pub fn describe_title(&self) -> (title: String)
        ensures
            title@ == self@.describe_title(),
    {
        match self.titled_kind() {
            Some(kind) => {
                let mut title = String::from_str("Describe - ");
                title.append(kind_display_name(kind));
                match self.resources.selected_name(kind) {
                    Some(name) => {
                        title.append(" ");
                        let object = address_of(
                            kind,
                            self.current_namespace.as_str(),
                            name.as_str(),
                        );
                        title.append(object.as_str());
                        title.append(" (J/K:scroll, PgUp/PgDn:page)");
                    },
                    None => {},
                }
                title
            },
            None => String::from_str("Describe"),
        }
    }

    /// What the titles of the manifest view for pods and services add
    /// about the mouse mode.
    fn mouse_mode_suffix(&self) -> (suffix: &'static str)
        ensures
            suffix@ == self@.mouse_mode_suffix(),
    {
        if !self.text_selection_mode {
            let empty = "";
            proof {
                reveal_strlit("");
                assert(empty@ =~= Seq::<char>::empty());
            }
            empty
        } else if self.language_chinese {
            " - 文本选择模式"
        } else {
            " - Text Selection Mode"
        }
    }

    /// The title of the manifest view.
    pub fn yaml_title(&self) -> (title: String)
        ensures
            title@ == self@.yaml_title(),
    {
        match self.titled_kind() {
            Some(kind) => {
                let mut title = String::from_str("YAML配置 - ");
                title.append(kind_display_name(kind));
                let detailed = match kind {
                    ResourceKind::Pod | ResourceKind::Service => true,
                    _ => false,
                };
                match self.resources.selected_name(kind) {
                    Some(name) => {
                        let object = address_of(
                            kind,
                            self.current_namespace.as_str(),
                            name.as_str(),
                        );
                        if detailed {
                            title.append(": ");
                            title.append(object.as_str());
                            title.append(self.mouse_mode_suffix());
                            title.append("  ");
                            title.append(
                                if self.language_chinese {
                                    "(j/k:滚动, M:切换模式, PgUp/PgDn:翻页)"
                                } else {
                                    "(j/k:scroll, M:toggle mode, PgUp/PgDn:page)"
                                },
                            );
                        } else {
                            title.append(" ");
                            title.append(object.as_str());
                            title.append(" (j/k:滚动, PgUp/PgDn:翻页)");
                        }
                    },
                    None => {
                        if detailed {
                            title.append(": ");
                            title.append(self.mouse_mode_suffix());
                        }
                    },
                }
                title
            },
            None => String::from_str("YAML配置"),
        }
    }

    /// The title of the log view: the pod, and how the view is set.
    pub fn logs_title(&self) -> (title: String)
        ensures
            title@ == self@.logs_title(),
    {
        let chinese = self.language_chinese;
        match self.resources.selected_name(ResourceKind::Pod) {
            Some(pod) => {
                let mut title = String::from_str(
                    if chinese {
                        "日志 - "
                    } else {
                        "Logs - "
                    },
                );
                title.append(self.current_namespace.as_str());
                title.append("/");
                title.append(pod.as_str());
                title.append(
                    if chinese {
                        " (j/k:滚动, PgUp/PgDn:翻页, A:自动滚动:"
                    } else {
                        " (j/k:scroll, PgUp/PgDn:page, A:auto-scroll:"
                    },
                );
                title.append(on_off_text(self.scroll.auto_follow, chinese));
                title.append(
                    if chinese {
                        ", R:自动刷新:"
                    } else {
                        ", R:auto-refresh:"
                    },
                );
                title.append(on_off_text(self.refresh.logs.enabled, chinese));
                title.append(
                    if chinese {
                        ", M:切换鼠标模式:"
                    } else {
                        ", M:toggle mouse mode:"
                    },
                );
                title.append(
                    if chinese {
                        if self.text_selection_mode {
                            "文本选择"
                        } else {
                            "鼠标滚动"
                        }
                    } else {
                        if self.text_selection_mode {
                            "Text Select"
                        } else {
                            "Mouse Scroll"
                        }
                    },
                );
                title.append(")");
                title
            },
            None => String::from_str(
                if chinese {
                    "日志"
                } else {
                    "Logs"
                },
            ),
        }
    }

    /// Title and text of the dialog that asks for confirmation of the
    /// pending deletion; `None` while nothing is pending.
    pub fn confirm_dialog(&self) -> (dialog: Option<(String, String)>)
        ensures
            match dialog {
                Some((title, text)) => self@.confirm_dialog() == Some((title@, text@)),
                None => self@.confirm_dialog() is None,
            },
    {
        match &self.confirm.pending {
            Some(action) => {
                let display = kind_display_name(action.kind());
                let chinese = self.language_chinese;
                let mut title = String::from_str(
                    if chinese {
                        "确认删除"
                    } else {
                        "Confirm Delete "
                    },
                );
                title.append(display);
                let mut text = String::from_str(
                    if chinese {
                        "确定要删除"
                    } else {
                        "Are you sure you want to delete "
                    },
                );
                text.append(display);
                text.append(" ");
                match action.namespace() {
                    Some(namespace) => {
                        text.append(namespace.as_str());
                        text.append("/");
                    },
                    None => {},
                }
                text.append(action.name().as_str());
                if chinese {
                    text.append(" 吗？此操作不可撤销。");
                    text.append("\n\n按 'y' 确认, 'n' 或 'Esc' 取消");
                } else {
                    text.append("? This action cannot be undone.");
                    text.append("\n\nPress 'y' to confirm, 'n' or 'Esc' to cancel");
                }
                assert(text@ =~= self@.confirm_dialog().unwrap().1);
                Some((title, text))
            },
            None => None,
        }
    }
}

/// The colour in which a status is shown.
#[derive(Debug, Clone, Copy, PartialEq, Eq, Structural)]
pub enum Tone {
    Green,
    Yellow,
    Red,
    Blue,
    Gray,
}

/// The colour for the status `status` of an object of `kind`. Pods, jobs,
/// volume claims, volumes and nodes have statuses with colours of their
/// own; everything else is gray.
pub open spec fn tone_of(kind: ResourceKind, status: Seq<char>) -> Tone {
    match kind {
        ResourceKind::Pod => if status == "Running"@ {
            Tone::Green
        } else if status == "Pending"@ {
            Tone::Yellow
        } else if status == "Failed"@ || status == "Error"@ {
            Tone::Red
        } else if status == "Succeeded"@ {
            Tone::Blue
        } else {
            Tone::Gray
        },
        ResourceKind::Job => if status == "Complete"@ {
            Tone::Green
        } else if status == "Running"@ {
            Tone::Blue
        } else if status == "Failed"@ {
            Tone::Red
        } else {
            Tone::Gray
        },
        ResourceKind::PVC => if status == "Bound"@ {
            Tone::Green
        } else if status == "Pending"@ {
            Tone::Yellow
        } else if status == "Lost"@ {
            Tone::Red
        } else {
            Tone::Gray
        },
        ResourceKind::PV => if status == "Available"@ {
            Tone::Green
        } else if status == "Bound"@ {
            Tone::Blue
        } else if status == "Released"@ {
            Tone::Yellow
        } else if status == "Failed"@ {
            Tone::Red
        } else {
            Tone::Gray
        },
        ResourceKind::Node => if status == "Ready"@ {
            Tone::Green
        } else if status == "NotReady"@ {
            Tone::Red
        } else {
            Tone::Gray
        },
        _ => Tone::Gray,
    }
}

/// The colour for the status `status` of an object of `kind`.
pub fn status_tone(kind: ResourceKind, status: &str) -> (tone: Tone)
    ensures
        tone == tone_of(kind, status@),
{
    match kind {
        ResourceKind::Pod => {
            if same_text(status, "Running") {
                Tone::Green
            } else if same_text(status, "Pending") {
                Tone::Yellow
            } else if same_text(status, "Failed") || same_text(status, "Error") {
                Tone::Red
            } else if same_text(status, "Succeeded") {
                Tone::Blue
            } else {
                Tone::Gray
            }
        },
        ResourceKind::Job => {
            if same_text(status, "Complete") {
                Tone::Green
            } else if same_text(status, "Running") {
                Tone::Blue
            } else if same_text(status, "Failed") {
                Tone::Red
            } else {
                Tone::Gray
            }
        },
        ResourceKind::PVC => {
            if same_text(status, "Bound") {
                Tone::Green
            } else if same_text(status, "Pending") {
                Tone::Yellow
            } else if same_text(status, "Lost") {
                Tone::Red
            } else {
                Tone::Gray
            }
        },
        ResourceKind::PV => {
            if same_text(status, "Available") {
                Tone::Green
            } else if same_text(status, "Bound") {
                Tone::Blue
            } else if same_text(status, "Released") {
                Tone::Yellow
            } else if same_text(status, "Failed") {
                Tone::Red
            } else {
                Tone::Gray
            }
        },
        ResourceKind::Node => {
            if same_text(status, "Ready") {
                Tone::Green
            } else if same_text(status, "NotReady") {
                Tone::Red
            } else {
                Tone::Gray
            }
        },
        _ => Tone::Gray,
    }
}

} // verus!
