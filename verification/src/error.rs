//! The errors that the application expects. Above them, it falls back where
//! it can (default configuration, default device) rather than stop.

use crate::text::{concat_str, decimal, push_decimal};
use vstd::prelude::*;

verus! {

/// An error the application expects.
#[derive(Debug, Clone, PartialEq, Eq)]
pub enum KuruError {
    InputDeviceNotFound(String),
    OutputDeviceNotFound(String),
    UnsupportedSampleRate(u32),
    ConfigLoadError(String),
    ConfigSaveError(String),
    DspError(String),
    DeviceError(String),
    StreamBuildError(String),
}

/// The text shown for an error.
pub open spec fn error_message(e: KuruError) -> Seq<char> {
    match e {
        KuruError::InputDeviceNotFound(s) => "入力デバイスが見つかりません: "@ + s@,
        KuruError::OutputDeviceNotFound(s) => "出力デバイスが見つかりません: "@ + s@,
        KuruError::UnsupportedSampleRate(r) => "サンプルレート "@ + decimal(r as nat)
            + " Hz はサポートされていません"@,
        KuruError::ConfigLoadError(s) => "設定ファイルの読み込みに失敗しました: "@ + s@,
        KuruError::ConfigSaveError(s) => "設定ファイルの保存に失敗しました: "@ + s@,
        KuruError::DspError(s) => "DSP 処理エラー: "@ + s@,
        KuruError::DeviceError(s) => "オーディオデバイスエラー: "@ + s@,
        KuruError::StreamBuildError(s) => "オーディオストリームの構築に失敗しました: "@ + s@,
    }
}

impl KuruError {
    /// The text shown for this error.
    pub fn message(&self) -> (r: String)
        ensures
            r@ == error_message(*self),
    {
        match self {
            KuruError::InputDeviceNotFound(s) => concat_str(
                "入力デバイスが見つかりません: ",
                s.as_str(),
            ),
            KuruError::OutputDeviceNotFound(s) => concat_str(
                "出力デバイスが見つかりません: ",
                s.as_str(),
            ),
            KuruError::UnsupportedSampleRate(rate) => {
                let mut r = String::from_str("サンプルレート ");
                push_decimal(&mut r, *rate as u64);
                r.append(" Hz はサポートされていません");
                r
            },
            KuruError::ConfigLoadError(s) => concat_str(
                "設定ファイルの読み込みに失敗しました: ",
                s.as_str(),
            ),
            KuruError::ConfigSaveError(s) => concat_str(
                "設定ファイルの保存に失敗しました: ",
                s.as_str(),
            ),
            KuruError::DspError(s) => concat_str("DSP 処理エラー: ", s.as_str()),
            KuruError::DeviceError(s) => concat_str("オーディオデバイスエラー: ", s.as_str()),
            KuruError::StreamBuildError(s) => concat_str(
                "オーディオストリームの構築に失敗しました: ",
                s.as_str(),
            ),
        }
    }
}

} // verus!
