use boxing_gym_backend::models::announcement::{AnnouncementPriority, AnnouncementStatus, TargetAudience};
use boxing_gym_backend::models::blog::{BlogCategory, BlogPostStatus};
use boxing_gym_backend::models::booking::BookingStatus;
use boxing_gym_backend::models::course::{CourseStatus, CourseType, DifficultyLevel};
use boxing_gym_backend::models::member::{MemberRole, MemberStatus};
use boxing_gym_backend::models::membership_plan::PlanDuration;
use boxing_gym_backend::models::schedule::{DayOfWeek, ScheduleStatus};

#[test]
fn stored_names_parse_back() {
    for p in [AnnouncementPriority::Low, AnnouncementPriority::Normal, AnnouncementPriority::High, AnnouncementPriority::Urgent] {
        assert_eq!(AnnouncementPriority::from(p.to_string()), p);
    }
    for s in [AnnouncementStatus::Draft, AnnouncementStatus::Published, AnnouncementStatus::Archived] {
        assert_eq!(AnnouncementStatus::from(s.to_string()), s);
    }
    for t in [TargetAudience::All, TargetAudience::Members, TargetAudience::Instructors, TargetAudience::Staff] {
        assert_eq!(TargetAudience::from(t.to_string()), t);
    }
    for c in [BlogCategory::News, BlogCategory::Training, BlogCategory::Nutrition, BlogCategory::Events,
              BlogCategory::Tips, BlogCategory::Stories, BlogCategory::Announcements, BlogCategory::Other] {
        assert_eq!(BlogCategory::from(c.to_string()), c);
    }
    for s in [BlogPostStatus::Draft, BlogPostStatus::Published, BlogPostStatus::Archived] {
        assert_eq!(BlogPostStatus::from(s.to_string()), s);
    }
    for s in [BookingStatus::Confirmed, BookingStatus::Cancelled, BookingStatus::Completed,
              BookingStatus::NoShow, BookingStatus::Waitlisted] {
        assert_eq!(BookingStatus::from(s.to_string()), s);
    }
    for t in [CourseType::GroupClass, CourseType::PersonalTraining, CourseType::OpenGym, CourseType::Workshop, CourseType::Competition] {
        assert_eq!(CourseType::from(t.to_string()), t);
    }
    for d in [DifficultyLevel::Beginner, DifficultyLevel::Intermediate, DifficultyLevel::Advanced, DifficultyLevel::AllLevels] {
        assert_eq!(DifficultyLevel::from(d.to_string()), d);
    }
    for s in [CourseStatus::Active, CourseStatus::Cancelled, CourseStatus::Completed, CourseStatus::Full] {
        assert_eq!(CourseStatus::from(s.to_string()), s);
    }
    for s in [MemberStatus::Active, MemberStatus::Inactive, MemberStatus::Suspended, MemberStatus::Expired] {
        assert_eq!(MemberStatus::from(s.to_string()), s);
    }
    for r in [MemberRole::Member, MemberRole::Admin, MemberRole::Instructor] {
        assert_eq!(MemberRole::from(r.to_string()), r);
    }
    for d in [PlanDuration::Monthly, PlanDuration::Quarterly, PlanDuration::SemiAnnual, PlanDuration::Annual, PlanDuration::PerSession] {
        assert_eq!(PlanDuration::from(d.to_string()), d);
    }
    for d in [DayOfWeek::Monday, DayOfWeek::Tuesday, DayOfWeek::Wednesday, DayOfWeek::Thursday,
              DayOfWeek::Friday, DayOfWeek::Saturday, DayOfWeek::Sunday] {
        assert_eq!(DayOfWeek::from(d.to_string()), d);
    }
    for s in [ScheduleStatus::Scheduled, ScheduleStatus::Cancelled, ScheduleStatus::Completed] {
        assert_eq!(ScheduleStatus::from(s.to_string()), s);
    }
}

#[test]
fn stored_names_are_the_snake_case_forms() {
    assert_eq!(BookingStatus::NoShow.to_string(), "no_show");
    assert_eq!(CourseType::PersonalTraining.to_string(), "personal_training");
    assert_eq!(DifficultyLevel::AllLevels.to_string(), "all_levels");
    assert_eq!(PlanDuration::SemiAnnual.to_string(), "semi_annual");
    assert_eq!(PlanDuration::PerSession.to_string(), "per_session");
    assert_eq!(MemberRole::Admin.to_string(), "admin");
    assert_eq!(TargetAudience::Staff.to_string(), "staff");
}

#[test]
fn names_are_read_ignoring_case() {
    assert_eq!(MemberRole::from("ADMIN".to_string()), MemberRole::Admin);
    assert_eq!(BlogPostStatus::from("Published".to_string()), BlogPostStatus::Published);
    assert_eq!(BookingStatus::from("No_Show".to_string()), BookingStatus::NoShow);
    assert_eq!(DayOfWeek::from("SUNDAY".to_string()), DayOfWeek::Sunday);
    assert_eq!(CourseType::from("Wor\u{212A}shop".to_string()), CourseType::Workshop);
}

#[test]
fn unknown_names_fall_back() {
    assert_eq!(AnnouncementPriority::from("whatever".to_string()), AnnouncementPriority::Normal);
    assert_eq!(AnnouncementStatus::from("".to_string()), AnnouncementStatus::Draft);
    assert_eq!(TargetAudience::from("everyone".to_string()), TargetAudience::All);
    assert_eq!(BlogCategory::from("sports".to_string()), BlogCategory::News);
    assert_eq!(BookingStatus::from("pending".to_string()), BookingStatus::Confirmed);
    assert_eq!(CourseType::from("yoga".to_string()), CourseType::GroupClass);
    assert_eq!(DifficultyLevel::from("expert".to_string()), DifficultyLevel::AllLevels);
    assert_eq!(CourseStatus::from("closed".to_string()), CourseStatus::Active);
    assert_eq!(MemberStatus::from("banned".to_string()), MemberStatus::Inactive);
    assert_eq!(MemberRole::from("owner".to_string()), MemberRole::Member);
    assert_eq!(PlanDuration::from("weekly".to_string()), PlanDuration::Monthly);
    assert_eq!(DayOfWeek::from("someday".to_string()), DayOfWeek::Monday);
    assert_eq!(ScheduleStatus::from("postponed".to_string()), ScheduleStatus::Scheduled);
}

#[test]
fn defaults() {
    assert_eq!(AnnouncementPriority::default(), AnnouncementPriority::Normal);
    assert_eq!(AnnouncementStatus::default(), AnnouncementStatus::Draft);
    assert_eq!(TargetAudience::default(), TargetAudience::All);
    assert_eq!(BlogPostStatus::default(), BlogPostStatus::Draft);
    assert_eq!(BlogCategory::default(), BlogCategory::News);
    assert_eq!(BookingStatus::default(), BookingStatus::Confirmed);
    assert_eq!(CourseType::default(), CourseType::GroupClass);
    assert_eq!(DifficultyLevel::default(), DifficultyLevel::AllLevels);
    assert_eq!(CourseStatus::default(), CourseStatus::Active);
    assert_eq!(MemberStatus::default(), MemberStatus::Active);
    assert_eq!(MemberRole::default(), MemberRole::Member);
    assert_eq!(PlanDuration::default(), PlanDuration::Monthly);
    assert_eq!(ScheduleStatus::default(), ScheduleStatus::Scheduled);
}

#[test]
fn plan_durations_in_days() {
    assert_eq!(PlanDuration::Monthly.days(), 30);
    assert_eq!(PlanDuration::Quarterly.days(), 90);
    assert_eq!(PlanDuration::SemiAnnual.days(), 180);
    assert_eq!(PlanDuration::Annual.days(), 365);
    assert_eq!(PlanDuration::PerSession.days(), 0);
}
