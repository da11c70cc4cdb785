//! The texts shown to the user when a migration, a start-up recovery, a
//! confirmation or an instant rollback stops or reports: paths are quoted
//! as `{:?}` quotes them, sizes are written as `format_size` writes them.
use vstd::prelude::*;
use vstd::string::*;
use crate::engine::control::ControlError;
use crate::engine::recovery::RecoveryReport;
use crate::engine::run::RunError;
use crate::journal::MigrationStage;
use crate::scanner::{format_size, format_size_spec};
use crate::text::owned;
use crate::trusted::{debug_quoted, debug_str};

verus! {

/// The name of a stage, as `{:?}` writes it.
pub open spec fn stage_name(st: MigrationStage) -> Seq<char> {
    match st {
        MigrationStage::Initiated => "Initiated"@,
        MigrationStage::Copied => "Copied"@,
        MigrationStage::Finalized => "Finalized"@,
        MigrationStage::SourceRenamed => "SourceRenamed"@,
        MigrationStage::Linked => "Linked"@,
        MigrationStage::Completed => "Completed"@,
    }
}

/// The name of a stage.
pub fn stage_text(st: MigrationStage) -> (r: String)
    ensures
        r@ == stage_name(st),
{
    match st {
        MigrationStage::Initiated => owned("Initiated"),
        MigrationStage::Copied => owned("Copied"),
        MigrationStage::Finalized => owned("Finalized"),
        MigrationStage::SourceRenamed => owned("SourceRenamed"),
        MigrationStage::Linked => owned("Linked"),
        MigrationStage::Completed => owned("Completed"),
    }
}

/// The text of a stopped migration.
pub open spec fn run_error_text_spec(e: RunError) -> Seq<char> {
    match e {
        RunError::Io(e) => e@,
        RunError::SourceMissing(p) => "源目录不存在: "@ + debug_quoted(p@),
        RunError::NotADirectory(p) => "源路径不是目录: "@ + debug_quoted(p@),
        RunError::AlreadyJunction(p) => "源目录已是 NTFS 联接（可能已迁移过）: "@ + debug_quoted(p@),
        RunError::SameDrive => "目标路径与源路径在同一磁盘，无需跨盘迁移"@,
        RunError::DriveRoot(p) => "源路径不能是盘符根目录: "@ + debug_quoted(p@),
        RunError::NotNtfs(letter) => "目标盘 "@ + letter@ + " 不是 NTFS 文件系统，无法创建 Junction 联接（FAT32/exFAT/网络盘不支持）"@,
        RunError::NtfsQueryFailed(e) => "无法获取目标盘文件系统信息: "@ + e@,
        RunError::OldPathExists(p) => "源目录的旧备份路径已存在 "@ + debug_quoted(p@) + "，请先手动删除或重命名后重试"@,
        RunError::SpaceQueryFailed(e) => "无法获取目标盘空间信息（盘符可能无效）: "@ + e@,
        RunError::EmptySource => "源目录为空，没有可迁移的文件"@,
        RunError::InsufficientSpace { free, required } => "目标盘空间不足！可用空间："@ + format_size_spec(free as nat) + "，安全余量要求："@ + format_size_spec(required as nat) + "，请清理后再试。"@,
        RunError::FinalExists(p) => "目标路径已存在同名正式文件夹 "@ + debug_quoted(p@) + "，迁移失败"@,
        RunError::CopyFailed(e) => "文件拷贝流遇到异常终止: "@ + e@,
        RunError::StillChanging(e) => "完整性校验失败：源目录在迁移期间持续被修改（"@ + e@ + "），请关闭占用程序后重试"@,
        RunError::TargetRenameFailed { error, tmp } => "重命名目标文件夹失败: "@ + error@ + "。源目录完好，数据完整保存在临时目录 "@ + debug_quoted(tmp@) + "，请重试迁移。"@,
        RunError::SourceRenameFailed { error, locks } => "重命名源目录失败: "@ + error@ + locks@ + "。源目录完好，请关闭占用程序后重试。"@,
        RunError::JunctionFailed { error, source, final_target } => "建立 NTFS 目录联接失败: "@ + error@ + "。数据已安全迁移至 "@ + debug_quoted(final_target@) + "，源目录已恢复原位，请手动执行 mklink /J \""@ + debug_quoted(source@) + "\" \""@ + debug_quoted(final_target@) + "\" 创建联接后重试。"@,
        RunError::ResumeSourceMissing => "恢复失败：源目录不存在，无法继续迁移"@,
        RunError::ResumeTmpMissing => "恢复失败：临时目录不存在，请重新迁移"@,
        RunError::ManifestLoadFailed(e) => "加载 Manifest 失败: "@ + e@,
        RunError::ResumeIncomplete(e) => "恢复失败：临时目录数据不完整（"@ + e@ + "），已清理，请重新迁移"@,
        RunError::ResumeTargetRenameFailed { error, tmp, final_target } => "重命名目标文件夹失败: "@ + error@ + "。数据完整保存在 "@ + debug_quoted(tmp@) + "，请手动重命名为 "@ + debug_quoted(final_target@) + "。"@,
        RunError::ResumeFinalMissing(p) => "恢复失败：目标目录 "@ + debug_quoted(p@) + " 不存在，请重新迁移"@,
        RunError::ResumeAlreadyJunction => "恢复失败：源路径已是 Junction，可能迁移已完成"@,
        RunError::ResumeOldPathExists(p) => "源目录的旧备份路径已存在 "@ + debug_quoted(p@) + "，请先手动删除后重试"@,
        RunError::ResumeSourceRenameFailed { error, locks } => "重命名源目录失败: "@ + error@ + locks@ + "。请关闭占用进程后重试。"@,
        RunError::ResumeJunctionFailed { error, source, final_target } => "建立 NTFS 目录联接失败: "@ + error@ + "。请手动执行 mklink /J \""@ + debug_quoted(source@) + "\" \""@ + debug_quoted(final_target@) + "\"。"@,
    }
}

impl RunError {
    /// The text shown for this error.
    pub fn text(&self) -> (r: String)
        ensures
            r@ == run_error_text_spec(*self),
    {
        match self {
            RunError::Io(e) => {
                let mut m = owned(e.as_str());
                m
            },
            RunError::SourceMissing(p) => {
                let mut m = owned("源目录不存在: ");
                let x = debug_str(p.as_str());
                m.append(x.as_str());
                m
            },
            RunError::NotADirectory(p) => {
                let mut m = owned("源路径不是目录: ");
                let x = debug_str(p.as_str());
                m.append(x.as_str());
                m
            },
            RunError::AlreadyJunction(p) => {
                let mut m = owned("源目录已是 NTFS 联接（可能已迁移过）: ");
                let x = debug_str(p.as_str());
                m.append(x.as_str());
                m
            },
            RunError::SameDrive => {
                let mut m = owned("目标路径与源路径在同一磁盘，无需跨盘迁移");
                m
            },
            RunError::DriveRoot(p) => {
                let mut m = owned("源路径不能是盘符根目录: ");
                let x = debug_str(p.as_str());
                m.append(x.as_str());
                m
            },
            RunError::NotNtfs(letter) => {
                let mut m = owned("目标盘 ");
                m.append(letter.as_str());
                m.append(" 不是 NTFS 文件系统，无法创建 Junction 联接（FAT32/exFAT/网络盘不支持）");
                m
            },
            RunError::NtfsQueryFailed(e) => {
                let mut m = owned("无法获取目标盘文件系统信息: ");
                m.append(e.as_str());
                m
            },
            RunError::OldPathExists(p) => {
                let mut m = owned("源目录的旧备份路径已存在 ");
                let x = debug_str(p.as_str());
                m.append(x.as_str());
                m.append("，请先手动删除或重命名后重试");
                m
            },
            RunError::SpaceQueryFailed(e) => {
                let mut m = owned("无法获取目标盘空间信息（盘符可能无效）: ");
                m.append(e.as_str());
                m
            },
            RunError::EmptySource => {
                let mut m = owned("源目录为空，没有可迁移的文件");
                m
            },
            RunError::InsufficientSpace { free, required } => {
                let mut m = owned("目标盘空间不足！可用空间：");
                let x = format_size(*free);
                m.append(x.as_str());
                m.append("，安全余量要求：");
                let x = format_size(*required);
                m.append(x.as_str());
                m.append("，请清理后再试。");
                m
            },
            RunError::FinalExists(p) => {
                let mut m = owned("目标路径已存在同名正式文件夹 ");
                let x = debug_str(p.as_str());
                m.append(x.as_str());
                m.append("，迁移失败");
                m
            },
            RunError::CopyFailed(e) => {
                let mut m = owned("文件拷贝流遇到异常终止: ");
                m.append(e.as_str());
                m
            },
            RunError::StillChanging(e) => {
                let mut m = owned("完整性校验失败：源目录在迁移期间持续被修改（");
                m.append(e.as_str());
                m.append("），请关闭占用程序后重试");
                m
            },
            RunError::TargetRenameFailed { error, tmp } => {
                let mut m = owned("重命名目标文件夹失败: ");
                m.append(error.as_str());
                m.append("。源目录完好，数据完整保存在临时目录 ");
                let x = debug_str(tmp.as_str());
                m.append(x.as_str());
                m.append("，请重试迁移。");
                m
            },
            RunError::SourceRenameFailed { error, locks } => {
                let mut m = owned("重命名源目录失败: ");
                m.append(error.as_str());
                m.append(locks.as_str());
                m.append("。源目录完好，请关闭占用程序后重试。");
                m
            },
            RunError::JunctionFailed { error, source, final_target } => {
                let mut m = owned("建立 NTFS 目录联接失败: ");
                m.append(error.as_str());
                m.append("。数据已安全迁移至 ");
                let x = debug_str(final_target.as_str());
                m.append(x.as_str());
                m.append("，源目录已恢复原位，请手动执行 mklink /J \"");
                let x = debug_str(source.as_str());
                m.append(x.as_str());
                m.append("\" \"");
                let x = debug_str(final_target.as_str());
                m.append(x.as_str());
                m.append("\" 创建联接后重试。");
                m
            },
            RunError::ResumeSourceMissing => {
                let mut m = owned("恢复失败：源目录不存在，无法继续迁移");
                m
            },
            RunError::ResumeTmpMissing => {
                let mut m = owned("恢复失败：临时目录不存在，请重新迁移");
                m
            },
            RunError::ManifestLoadFailed(e) => {
                let mut m = owned("加载 Manifest 失败: ");
                m.append(e.as_str());
                m
            },
            RunError::ResumeIncomplete(e) => {
                let mut m = owned("恢复失败：临时目录数据不完整（");
                m.append(e.as_str());
                m.append("），已清理，请重新迁移");
                m
            },
            RunError::ResumeTargetRenameFailed { error, tmp, final_target } => {
                let mut m = owned("重命名目标文件夹失败: ");
                m.append(error.as_str());
                m.append("。数据完整保存在 ");
                let x = debug_str(tmp.as_str());
                m.append(x.as_str());
                m.append("，请手动重命名为 ");
                let x = debug_str(final_target.as_str());
                m.append(x.as_str());
                m.append("。");
                m
            },
            RunError::ResumeFinalMissing(p) => {
                let mut m = owned("恢复失败：目标目录 ");
                let x = debug_str(p.as_str());
                m.append(x.as_str());
                m.append(" 不存在，请重新迁移");
                m
            },
            RunError::ResumeAlreadyJunction => {
                let mut m = owned("恢复失败：源路径已是 Junction，可能迁移已完成");
                m
            },
            RunError::ResumeOldPathExists(p) => {
                let mut m = owned("源目录的旧备份路径已存在 ");
                let x = debug_str(p.as_str());
                m.append(x.as_str());
                m.append("，请先手动删除后重试");
                m
            },
            RunError::ResumeSourceRenameFailed { error, locks } => {
                let mut m = owned("重命名源目录失败: ");
                m.append(error.as_str());
                m.append(locks.as_str());
                m.append("。请关闭占用进程后重试。");
                m
            },
            RunError::ResumeJunctionFailed { error, source, final_target } => {
                let mut m = owned("建立 NTFS 目录联接失败: ");
                m.append(error.as_str());
                m.append("。请手动执行 mklink /J \"");
                let x = debug_str(source.as_str());
                m.append(x.as_str());
                m.append("\" \"");
                let x = debug_str(final_target.as_str());
                m.append(x.as_str());
                m.append("\"。");
                m
            },
        }
    }
}
/// The text of a recovery report.
pub open spec fn recovery_text_spec(e: RecoveryReport) -> Seq<char> {
    match e {
        RecoveryReport::RolledBackCopy { source } => "检测到上次拷贝中途故障中断的事务 "@ + debug_quoted(source@) + "，已安全回滚（删除不完整的临时目录），C盘源数据完好无损。"@,
        RecoveryReport::InitiatedSourceMissing { source, tmp } => "⚠️ 异常状态：事务 "@ + debug_quoted(source@) + " 处于拷贝阶段但源目录不存在，临时目录 "@ + debug_quoted(tmp@) + " 可能含部分数据，已保留待人工确认。"@,
        RecoveryReport::CopiedResumable { source } => "检测到上次拷贝完成但后续步骤中断的迁移任务 "@ + debug_quoted(source@) + "。请重新迁移该目录，将从重命名步骤继续（无需重新拷贝）。"@,
        RecoveryReport::CopiedSourceMissing { source, tmp, final_target } => "⚠️ 事务 "@ + debug_quoted(source@) + " 处于已校验状态但源目录不存在。完整数据保存在临时目录 "@ + debug_quoted(tmp@) + "，请手动重命名为 "@ + debug_quoted(final_target@) + " 并创建 Junction，或联系技术支持。"@,
        RecoveryReport::FinalizedFinalMissing { source, final_target, tmp } => "⚠️ 事务 "@ + debug_quoted(source@) + " 处于 Finalized 状态但正式目标目录 "@ + debug_quoted(final_target@) + " 不存在，临时目录 "@ + debug_quoted(tmp@) + " 仍在。请手动重命名临时目录为正式目录后重试。"@,
        RecoveryReport::FinalizedDataLost { source } => "❌ 事务 "@ + debug_quoted(source@) + " 处于 Finalized 状态但目标目录均不存在，数据可能丢失，请检查。"@,
        RecoveryReport::OldPathTaken { source, old } => "检测到未完成的迁移 "@ + debug_quoted(source@) + "，但旧备份路径 "@ + debug_quoted(old@) + " 已存在。请手动处理后重试。"@,
        RecoveryReport::AutoRenameFailed { error } => "⚠️ 自动恢复：重命名源目录失败: "@ + error@ + "。请关闭占用程序后重试。"@,
        RecoveryReport::AutoLinkFailed { error, source, final_target } => "⚠️ 自动恢复：重命名源成功但创建 Junction 失败: "@ + error@ + "。请手动执行 mklink /J \""@ + debug_quoted(source@) + "\" \""@ + debug_quoted(final_target@) + "\"。"@,
        RecoveryReport::AutoCompleted { source } => "✅ 自动恢复完成：事务 "@ + debug_quoted(source@) + " 已自动完成源重命名与 Junction 创建，迁移成功。请测试软件是否正常使用。"@,
        RecoveryReport::FinalizedSourceGone { source, final_target } => "⚠️ 事务 "@ + debug_quoted(source@) + " 处于 Finalized 状态但源目录不在原位或已是 Junction。数据安全保存在 "@ + debug_quoted(final_target@) + "，请手动检查。"@,
        RecoveryReport::RevertedToFinalized { source } => "检测到事务 "@ + debug_quoted(source@) + " 处于 SourceRenamed 状态但旧源目录不存在，源目录仍在原位。已回退至 Finalized 状态，请重试。"@,
        RecoveryReport::RenamedSourceMissing { source, old } => "❌ 事务 "@ + debug_quoted(source@) + " 处于 SourceRenamed 状态但旧源目录 "@ + debug_quoted(old@) + " 不存在，源也不在原位，数据可能丢失，请检查。"@,
        RecoveryReport::RenamedFinalMissing { source, final_target } => "❌ 事务 "@ + debug_quoted(source@) + " 处于 SourceRenamed 状态但目标目录 "@ + debug_quoted(final_target@) + " 不存在，数据可能丢失，请检查。"@,
        RecoveryReport::LinkFailed { error, source, final_target } => "⚠️ 自动恢复：数据完整但创建 Junction 失败: "@ + error@ + "。请手动执行 mklink /J \""@ + debug_quoted(source@) + "\" \""@ + debug_quoted(final_target@) + "\"。"@,
        RecoveryReport::AutoLinked { source } => "✅ 自动恢复完成：事务 "@ + debug_quoted(source@) + " 已自动创建 Junction，迁移成功。请测试软件是否正常使用。"@,
        RecoveryReport::AwaitingConfirmation { source } => "检测到已完成的迁移事务 "@ + debug_quoted(source@) + "，等待确认。请确认软件正常使用后点击确认删除旧数据，或如需回滚请执行即时回滚。"@,
        RecoveryReport::CompletedCleaned { source } => "检测到已完成的迁移事务 "@ + debug_quoted(source@) + "，已清理残留日志。"@,
    }
}

impl RecoveryReport {
    /// The text shown for this report.
    pub fn text(&self) -> (r: String)
        ensures
            r@ == recovery_text_spec(*self),
    {
        match self {
            RecoveryReport::RolledBackCopy { source } => {
                let mut m = owned("检测到上次拷贝中途故障中断的事务 ");
                let x = debug_str(source.as_str());
                m.append(x.as_str());
                m.append("，已安全回滚（删除不完整的临时目录），C盘源数据完好无损。");
                m
            },
            RecoveryReport::InitiatedSourceMissing { source, tmp } => {
                let mut m = owned("⚠️ 异常状态：事务 ");
                let x = debug_str(source.as_str());
                m.append(x.as_str());
                m.append(" 处于拷贝阶段但源目录不存在，临时目录 ");
                let x = debug_str(tmp.as_str());
                m.append(x.as_str());
                m.append(" 可能含部分数据，已保留待人工确认。");
                m
            },
            RecoveryReport::CopiedResumable { source } => {
                let mut m = owned("检测到上次拷贝完成但后续步骤中断的迁移任务 ");
                let x = debug_str(source.as_str());
                m.append(x.as_str());
                m.append("。请重新迁移该目录，将从重命名步骤继续（无需重新拷贝）。");
                m
            },
            RecoveryReport::CopiedSourceMissing { source, tmp, final_target } => {
                let mut m = owned("⚠️ 事务 ");
                let x = debug_str(source.as_str());
                m.append(x.as_str());
                m.append(" 处于已校验状态但源目录不存在。完整数据保存在临时目录 ");
                let x = debug_str(tmp.as_str());
                m.append(x.as_str());
                m.append("，请手动重命名为 ");
                let x = debug_str(final_target.as_str());
                m.append(x.as_str());
                m.append(" 并创建 Junction，或联系技术支持。");
                m
            },
            RecoveryReport::FinalizedFinalMissing { source, final_target, tmp } => {
                let mut m = owned("⚠️ 事务 ");
                let x = debug_str(source.as_str());
                m.append(x.as_str());
                m.append(" 处于 Finalized 状态但正式目标目录 ");
                let x = debug_str(final_target.as_str());
                m.append(x.as_str());
                m.append(" 不存在，临时目录 ");
                let x = debug_str(tmp.as_str());
                m.append(x.as_str());
                m.append(" 仍在。请手动重命名临时目录为正式目录后重试。");
                m
            },
            RecoveryReport::FinalizedDataLost { source } => {
                let mut m = owned("❌ 事务 ");
                let x = debug_str(source.as_str());
                m.append(x.as_str());
                m.append(" 处于 Finalized 状态但目标目录均不存在，数据可能丢失，请检查。");
                m
            },
            RecoveryReport::OldPathTaken { source, old } => {
                let mut m = owned("检测到未完成的迁移 ");
                let x = debug_str(source.as_str());
                m.append(x.as_str());
                m.append("，但旧备份路径 ");
                let x = debug_str(old.as_str());
                m.append(x.as_str());
                m.append(" 已存在。请手动处理后重试。");
                m
            },
            RecoveryReport::AutoRenameFailed { error } => {
                let mut m = owned("⚠️ 自动恢复：重命名源目录失败: ");
                m.append(error.as_str());
                m.append("。请关闭占用程序后重试。");
                m
            },
            RecoveryReport::AutoLinkFailed { error, source, final_target } => {
                let mut m = owned("⚠️ 自动恢复：重命名源成功但创建 Junction 失败: ");
                m.append(error.as_str());
                m.append("。请手动执行 mklink /J \"");
                let x = debug_str(source.as_str());
                m.append(x.as_str());
                m.append("\" \"");
                let x = debug_str(final_target.as_str());
                m.append(x.as_str());
                m.append("\"。");
                m
            },
            RecoveryReport::AutoCompleted { source } => {
                let mut m = owned("✅ 自动恢复完成：事务 ");
                let x = debug_str(source.as_str());
                m.append(x.as_str());
                m.append(" 已自动完成源重命名与 Junction 创建，迁移成功。请测试软件是否正常使用。");
                m
            },
            RecoveryReport::FinalizedSourceGone { source, final_target } => {
                let mut m = owned("⚠️ 事务 ");
                let x = debug_str(source.as_str());
                m.append(x.as_str());
                m.append(" 处于 Finalized 状态但源目录不在原位或已是 Junction。数据安全保存在 ");
                let x = debug_str(final_target.as_str());
                m.append(x.as_str());
                m.append("，请手动检查。");
                m
            },
            RecoveryReport::RevertedToFinalized { source } => {
                let mut m = owned("检测到事务 ");
                let x = debug_str(source.as_str());
                m.append(x.as_str());
                m.append(" 处于 SourceRenamed 状态但旧源目录不存在，源目录仍在原位。已回退至 Finalized 状态，请重试。");
                m
            },
            RecoveryReport::RenamedSourceMissing { source, old } => {
                let mut m = owned("❌ 事务 ");
                let x = debug_str(source.as_str());
                m.append(x.as_str());
                m.append(" 处于 SourceRenamed 状态但旧源目录 ");
                let x = debug_str(old.as_str());
                m.append(x.as_str());
                m.append(" 不存在，源也不在原位，数据可能丢失，请检查。");
                m
            },
            RecoveryReport::RenamedFinalMissing { source, final_target } => {
                let mut m = owned("❌ 事务 ");
                let x = debug_str(source.as_str());
                m.append(x.as_str());
                m.append(" 处于 SourceRenamed 状态但目标目录 ");
                let x = debug_str(final_target.as_str());
                m.append(x.as_str());
                m.append(" 不存在，数据可能丢失，请检查。");
                m
            },
            RecoveryReport::LinkFailed { error, source, final_target } => {
                let mut m = owned("⚠️ 自动恢复：数据完整但创建 Junction 失败: ");
                m.append(error.as_str());
                m.append("。请手动执行 mklink /J \"");
                let x = debug_str(source.as_str());
                m.append(x.as_str());
                m.append("\" \"");
                let x = debug_str(final_target.as_str());
                m.append(x.as_str());
                m.append("\"。");
                m
            },
            RecoveryReport::AutoLinked { source } => {
                let mut m = owned("✅ 自动恢复完成：事务 ");
                let x = debug_str(source.as_str());
                m.append(x.as_str());
                m.append(" 已自动创建 Junction，迁移成功。请测试软件是否正常使用。");
                m
            },
            RecoveryReport::AwaitingConfirmation { source } => {
                let mut m = owned("检测到已完成的迁移事务 ");
                let x = debug_str(source.as_str());
                m.append(x.as_str());
                m.append("，等待确认。请确认软件正常使用后点击确认删除旧数据，或如需回滚请执行即时回滚。");
                m
            },
            RecoveryReport::CompletedCleaned { source } => {
                let mut m = owned("检测到已完成的迁移事务 ");
                let x = debug_str(source.as_str());
                m.append(x.as_str());
                m.append("，已清理残留日志。");
                m
            },
        }
    }
}
/// The text of a stopped confirmation or rollback.
pub open spec fn control_error_text_spec(e: ControlError) -> Seq<char> {
    match e {
        ControlError::Io(e) => e@,
        ControlError::NoJob => "没有进行中的迁移任务"@,
        ControlError::NotLinked(stage) => "当前迁移状态为 "@ + stage_name(stage) + "，仅在 Linked 状态下可确认删除旧源"@,
        ControlError::SourceMismatch { job_source, requested } => "任务源路径 "@ + debug_quoted(job_source@) + " 与请求路径 "@ + debug_quoted(requested@) + " 不匹配"@,
        ControlError::RestoreFailed { old, source, error } => "回滚失败：将 "@ + debug_quoted(old@) + " 重命名回 "@ + debug_quoted(source@) + " 失败: "@ + error@,
        ControlError::OldMissing(old) => "回滚失败：旧源目录 "@ + debug_quoted(old@) + " 不存在，无法恢复原目录"@,
        ControlError::Unsupported(stage) => "即时回滚不支持 "@ + stage_name(stage) + " 状态，仅支持 Linked/SourceRenamed/Finalized"@,
    }
}

impl ControlError {
    /// The text shown for this error.
    pub fn text(&self) -> (r: String)
        ensures
            r@ == control_error_text_spec(*self),
    {
        match self {
            ControlError::Io(e) => {
                let mut m = owned(e.as_str());
                m
            },
            ControlError::NoJob => {
                let mut m = owned("没有进行中的迁移任务");
                m
            },
            ControlError::NotLinked(stage) => {
                let mut m = owned("当前迁移状态为 ");
                let x = stage_text(*stage);
                m.append(x.as_str());
                m.append("，仅在 Linked 状态下可确认删除旧源");
                m
            },
            ControlError::SourceMismatch { job_source, requested } => {
                let mut m = owned("任务源路径 ");
                let x = debug_str(job_source.as_str());
                m.append(x.as_str());
                m.append(" 与请求路径 ");
                let x = debug_str(requested.as_str());
                m.append(x.as_str());
                m.append(" 不匹配");
                m
            },
            ControlError::RestoreFailed { old, source, error } => {
                let mut m = owned("回滚失败：将 ");
                let x = debug_str(old.as_str());
                m.append(x.as_str());
                m.append(" 重命名回 ");
                let x = debug_str(source.as_str());
                m.append(x.as_str());
                m.append(" 失败: ");
                m.append(error.as_str());
                m
            },
            ControlError::OldMissing(old) => {
                let mut m = owned("回滚失败：旧源目录 ");
                let x = debug_str(old.as_str());
                m.append(x.as_str());
                m.append(" 不存在，无法恢复原目录");
                m
            },
            ControlError::Unsupported(stage) => {
                let mut m = owned("即时回滚不支持 ");
                let x = stage_text(*stage);
                m.append(x.as_str());
                m.append(" 状态，仅支持 Linked/SourceRenamed/Finalized");
                m
            },
        }
    }
}
} // verus!
