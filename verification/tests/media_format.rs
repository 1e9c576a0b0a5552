use ohboi_parse::crawler::media_format::multiple_string_media_format_value;
use ohboi_parse::dto::characteristic::enum_characteristic::MediaFormat;

#[test]
fn it_parses_media_format() {
    assert_eq!(
        multiple_string_media_format_value(
            "_",
            "_",
            "MP4; M4V; MKV;XVID; WAV; AAC; MP3; AMR; FLAC; APE",
        ),
        vec![
            MediaFormat::MP4,
            MediaFormat::M4V,
            MediaFormat::MKV,
            MediaFormat::XVID,
            MediaFormat::WAV,
            MediaFormat::AAC,
            MediaFormat::MP3,
            MediaFormat::AMR,
            MediaFormat::FLAC,
            MediaFormat::APE,
        ]
    );

    assert_eq!(
        multiple_string_media_format_value(
            "_",
            "_",
            "MP4; M4V; MKV; XVID; WAV; AAC/AAC+/eAAC+; MP3; AMR-NB/WB; FLAC; PCM",
        ),
        vec![
            MediaFormat::MP4,
            MediaFormat::M4V,
            MediaFormat::MKV,
            MediaFormat::XVID,
            MediaFormat::WAV,
            MediaFormat::AAC,
            MediaFormat::AAC_plus,
            MediaFormat::eAAC_plus,
            MediaFormat::MP3,
            MediaFormat::AMR_NB,
            MediaFormat::WB,
            MediaFormat::FLAC,
            MediaFormat::PCM,
        ]
    );
    assert_eq!(
        multiple_string_media_format_value(
            "_",
            "_",
            "PCM, AAC / AAC+, MP3, AMR–NB and WB, Opus, PCM/WAVE",
        ),
        vec![
            MediaFormat::PCM,
            MediaFormat::AAC,
            MediaFormat::AAC_plus,
            MediaFormat::MP3,
            MediaFormat::AMR_NB,
            MediaFormat::WB,
            MediaFormat::Opus,
            MediaFormat::WAVE,
        ]
    );
    assert_eq!(
        multiple_string_media_format_value("_", "_", "PCM, PCM/WAVE"),
        vec![MediaFormat::PCM, MediaFormat::WAVE,]
    );
    assert_eq!(
        multiple_string_media_format_value("_", "_", "Поддерживает H.263, H264 (базовый профиль / основной профиль), H.264 HEVC, MPEG4 (простой профиль / ASP), XVID, ASF / WMV, 3GI, MKV / WEBM, M4V, FLV и другие видеоформаты.Поддерживает аудиоформаты, такие как AAC / AAC +, MP3, AMR - NB и WB, FLAC, MIDI / PCM / WAVE"),
        vec![MediaFormat::H263, MediaFormat::H264, MediaFormat::MPEG4, MediaFormat::XVID, MediaFormat::ASF, MediaFormat::WMV, MediaFormat::_3GI, MediaFormat::MKV, MediaFormat::WEBM, MediaFormat::M4V, MediaFormat::FLV, MediaFormat::AAC, MediaFormat::AAC_plus, MediaFormat::MP3, MediaFormat::AMR_NB, MediaFormat::WB, MediaFormat::FLAC, MediaFormat::MIDI, MediaFormat::PCM, MediaFormat::WAVE]
    );
    assert_eq!(
        multiple_string_media_format_value("_", "_", "Видео форматы: H.265 / HEVC (основной профиль), H.264 (базовый/основной/высокий), MPEG4 (обычный/ASP) и другие. Аудио форматы: PCM, AAC / AAC + / eAAC +, MP3, AMR - NB и WB, FLAC, WAV."),
        vec![MediaFormat::H265, MediaFormat::H264,MediaFormat::MPEG4,MediaFormat::PCM,MediaFormat::AAC,MediaFormat::AAC_plus,MediaFormat::eAAC_plus,MediaFormat::MP3,MediaFormat::AMR_NB,MediaFormat::WB,MediaFormat::FLAC,MediaFormat::WAV]
    );
}
