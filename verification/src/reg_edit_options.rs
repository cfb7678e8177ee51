//! The fixed catalog of tweaks, its builder, and the lookup by id.

use vstd::prelude::*;
use vstd::string::StringExecFns;

use crate::command::OptionCandidate;
use crate::command::RegistryEditOption;
use crate::data_type::DataType;
use crate::def::RegDef;

verus! {

/// Builds the catalog, assigning each entry the next sequential id:
/// ids start at 1, increase by one per entry, and are never reused.
pub struct Builder {
    pub id_counter: u64,
    pub buffer: Vec<RegistryEditOption>,
}

impl Builder {
    /// The builder's invariant: one entry per id handed out, and the
    /// entry at each position carries the position's id.
    pub open spec fn wf(self) -> bool {
        &&& self.buffer@.len() == self.id_counter
        &&& forall|i: int| 0 <= i < self.buffer@.len() ==> #[trigger] self.buffer@[i].id == i + 1
    }

    pub fn with_capacity(cap: usize) -> (r: Self)
        ensures
            r.wf(),
            r.id_counter == 0,
            r.buffer@.len() == 0,
    {
        Self { id_counter: 0, buffer: Vec::with_capacity(cap) }
    }

    /// Appends one tweak under the next sequential id.  Exhaustion of the
    /// id counter cannot occur in practice and is excluded here: the
    /// catalog is built once with a handful of entries.
    pub fn push(&mut self, label: &str, def: RegDef, values: Vec<OptionCandidate>)
        requires
            old(self).wf(),
            old(self).id_counter < u64::MAX,
        ensures
            final(self).wf(),
            final(self).id_counter == old(self).id_counter + 1,
            final(self).buffer@.len() == old(self).buffer@.len() + 1,
            forall|i: int|
                0 <= i < old(self).buffer@.len() ==> final(self).buffer@[i] == old(
                    self,
                ).buffer@[i],
            final(self).buffer@.last().id == old(self).id_counter + 1,
            final(self).buffer@.last().label@ == label@,
            final(self).buffer@.last().def == def,
            final(self).buffer@.last().values == values,
    {
        self.id_counter = self.id_counter + 1;
        let entry = RegistryEditOption {
            id: self.id_counter,
            label: String::from_str(label),
            def,
            values,
        };
        self.buffer.push(entry);
    }

    /// Hands the finished catalog out.
    pub fn into_vec(self) -> (r: Vec<RegistryEditOption>)
        ensures
            r == self.buffer,
    {
        self.buffer
    }
}

/// Finds the position of the catalog entry carrying an id.
pub fn find_option_index(options: &Vec<RegistryEditOption>, id: u64) -> (r: Option<usize>)
    ensures
        match r {
            Some(i) => i < options@.len() && options@[i as int].id == id,
            None => forall|i: int| 0 <= i < options@.len() ==> options@[i].id != id,
        },
{
    let n = options.len();
    let mut i: usize = 0;
    while i < n
        invariant
            i <= n,
            n == options@.len(),
            forall|q: int| 0 <= q < i ==> options@[q].id != id,
        decreases n - i,
    {
        if options[i].id == id {
            return Some(i);
        }
        i = i + 1;
    }
    None
}

/// The fixed catalog of tweaks.  The caller supplies the current user's
/// security identifier, used in the key paths addressed below the
/// all-users root.
pub fn default_edit_options(sid: &str) -> (r: Vec<RegistryEditOption>)
    ensures
        r@.len() == 7,
        forall|i: int| 0 <= i < r@.len() ==> #[trigger] r@[i].id == i + 1,
{
    let advanced_under_sid = String::from_str(sid).concat(
        "\\Software\\Microsoft\\Windows\\CurrentVersion\\Explorer\\Advanced",
    );
    let mut b = Builder::with_capacity(8);
    b.push(
        "エクスプローラ - 右クリックメニュー",
        RegDef::hkcu(
            "Software\\Classes\\CLSID\\{86ca1aa0-34aa-4e8b-a509-50c905bae2a2}\\InprocServer32",
            "",
            DataType::String,
        ),
        vec![
            OptionCandidate::new("", "従来のメニュー"),
            OptionCandidate::new("", "TODO: Windows11 のメニュー"),
        ],
    );
    b.push(
        "エクスプローラ - 起動画面",
        RegDef::hku(advanced_under_sid.as_str(), "LaunchTo", DataType::DWord),
        vec![OptionCandidate::new("1", "PC"), OptionCandidate::new("2", "ホーム")],
    );
    b.push(
        "エクスプローラ - ファイル拡張子",
        RegDef::hku(advanced_under_sid.as_str(), "HideFileExt", DataType::DWord),
        vec![
            OptionCandidate::new("0", "登録された拡張子を表示する"),
            OptionCandidate::new("1", "登録された拡張子を表示しない"),
        ],
    );
    b.push(
        "タスクバー - スタートメニュー位置",
        RegDef::hkcu(
            "SOFTWARE\\Microsoft\\Windows\\CurrentVersion\\Explorer\\Advanced",
            "TaskbarAl",
            DataType::DWord,
        ),
        vec![OptionCandidate::new("0", "左揃え"), OptionCandidate::new("1", "中央揃え")],
    );
    b.push(
        "タスクバー - 検索ボックス",
        RegDef::hkcu(
            "SOFTWARE\\Microsoft\\Windows\\CurrentVersion\\Search",
            "SearchBoxTaskbarMode",
            DataType::DWord,
        ),
        vec![
            OptionCandidate::new("0", "非表示"),
            OptionCandidate::new("1", "検索アイコンのみ"),
            OptionCandidate::new("2", "検索ボックス"),
            OptionCandidate::new("3", "検索アイコンとラベル"),
        ],
    );
    b.push(
        "タスクバー - タスクビュー",
        RegDef::hkcu(
            "SOFTWARE\\Microsoft\\Windows\\CurrentVersion\\Explorer\\Advanced",
            "ShowTaskViewButton",
            DataType::DWord,
        ),
        vec![OptionCandidate::new("0", "非表示"), OptionCandidate::new("1", "表示")],
    );
    b.push(
        "タスクバー - チャット",
        RegDef::hku(advanced_under_sid.as_str(), "TaskbarMn", DataType::DWord),
        vec![OptionCandidate::new("0", "非表示"), OptionCandidate::new("1", "表示")],
    );
    b.into_vec()
}

} // verus!
